use vstd::prelude::*;

verus! {

/// Address of the trace collector that spans are exported to.
pub open spec fn collector_endpoint() -> Seq<char> {
    "http://localhost:4317"@
}

/// Key of the resource tag that carries the service's name.
pub open spec fn service_name_key() -> Seq<char> {
    "service.name"@
}

/// Port the HTTP listener binds to.
pub const LISTEN_PORT: u16 = 8080;

/// Wire protocol of the trace exporter.
#[derive(Clone, Copy, Debug, PartialEq, Eq, Structural)]
pub enum Protocol {
    Grpc,
    HttpBinary,
}

/// Which spans are recorded.
#[derive(Clone, Copy, Debug, PartialEq, Eq, Structural)]
pub enum Sampler {
    AlwaysOn,
    AlwaysOff,
}

/// How finished spans reach the exporter: buffered and flushed in the
/// background, or handed over one by one on the thread that closed them.
#[derive(Clone, Copy, Debug, PartialEq, Eq, Structural)]
pub enum ExportMode {
    Batch,
    Simple,
}

/// One key-value attribute attached to every span of the process.
pub struct ResourceTag {
    pub key: String,
    pub value: String,
}

/// Everything the process-wide tracing pipeline is built from.
pub struct TracingConfig {
    pub endpoint: String,
    pub protocol: Protocol,
    pub sampler: Sampler,
    pub export: ExportMode,
    pub resource: Vec<ResourceTag>,
}

/// The local address the server listens on: an IPv4 address and a port.
#[derive(Clone, Copy, Debug, PartialEq, Eq)]
pub struct ListenAddr {
    pub ip: [u8; 4],
    pub port: u16,
}

/// The pipeline for a service called `service_name`: gRPC export to the
/// local collector, every span sampled, spans batched off the request
/// path, and one resource tag naming the service.
pub fn configure_tracing(service_name: String) -> (r: TracingConfig)
    ensures
        r.endpoint@ == collector_endpoint(),
        r.protocol == Protocol::Grpc,
        r.sampler == Sampler::AlwaysOn,
        r.export == ExportMode::Batch,
        r.resource@.len() == 1,
        r.resource@[0].key@ == service_name_key(),
        r.resource@[0].value@ == service_name@,
{
    let tag = ResourceTag { key: "service.name".to_string(), value: service_name };
    let mut resource: Vec<ResourceTag> = Vec::new();
    resource.push(tag);
    TracingConfig {
        endpoint: "http://localhost:4317".to_string(),
        protocol: Protocol::Grpc,
        sampler: Sampler::AlwaysOn,
        export: ExportMode::Batch,
        resource,
    }
}

/// The wildcard IPv4 address `0.0.0.0` on the service's fixed port.
pub fn listen_addr() -> (r: ListenAddr)
    ensures
        r.ip@ == seq![0u8, 0u8, 0u8, 0u8],
        r.port == LISTEN_PORT,
{
    let r = ListenAddr { ip: [0, 0, 0, 0], port: LISTEN_PORT };
    assert(r.ip@ =~= seq![0u8, 0u8, 0u8, 0u8]);
    r
}

} // verus!
