use vstd::prelude::*;

verus! {

/// The fixed text that the home route answers with.
pub open spec fn home_body() -> Seq<char> {
    "ola k ase"@
}

/// The HTTP status of a successful reply.
pub open spec fn status_ok() -> u16 {
    200
}

/// What the service sends back for one request: a status and a text body.
pub struct Reply {
    pub status: u16,
    pub body: String,
}

/// Body of the answer to `GET /`. It reads no input and no shared state,
/// so every call, repeated or concurrent, yields the same text.
pub fn home_handler() -> (r: String)
    ensures
        r@ == home_body(),
{
    "ola k ase".to_string()
}

/// `r` is the answer to `GET /`: success status and the fixed body.
pub open spec fn is_home_reply(r: Reply) -> bool {
    r.status == status_ok() && r.body@ == home_body()
}

/// The whole answer to `GET /`. Nothing outside the call (other requests,
/// the log filter, the state of the trace exporter) enters it.
pub fn home_reply() -> (r: Reply)
    ensures
        is_home_reply(r),
        r.status == status_ok(),
        r.body@ == home_body(),
{
    Reply { status: 200, body: home_handler() }
}

/// Any two answers to `GET /`, whether from repeated or concurrent requests,
/// carry the same status and the same body: no request sees the effect of
/// another.
pub proof fn home_replies_agree(a: Reply, b: Reply)
    requires
        is_home_reply(a),
        is_home_reply(b),
    ensures
        a.status == b.status,
        a.body@ == b.body@,
{
}

} // verus!
