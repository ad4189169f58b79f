//! Start-up decisions of the gateway: the listening addresses, the log
//! identity, and the refusal to run without mutual TLS.
use vstd::prelude::*;
use crate::config::AppConfig;
use crate::logger::SutsV4Formatter;
use crate::text::{decimal, format_u64};

verus! {

/// The gateway process.
pub struct App;

/// `host:port`, the text of a listening address.
pub open spec fn address_text(host: Seq<char>, port: u16) -> Seq<char> {
    host + ":"@ + decimal(port as nat)
}

/// Every certificate path that mutual TLS needs is set.
pub open spec fn mtls_configured(c: AppConfig) -> bool {
    c.tts_gateway_service_cert_path@.len() > 0 && c.tts_gateway_service_key_path@.len() > 0
        && c.grpc_tls_ca_path@.len() > 0
}

fn address(host: &String, port: u16) -> (s: String)
    ensures
        s@ == address_text(host@, port),
{
    let mut s = host.clone();
    s.append(":");
    let digits = format_u64(port as u64);
    s.append(digits.as_str());
    s
}

impl App {
    /// The address of the metrics and health server.
    pub fn metrics_address(config: &AppConfig) -> (s: String)
        ensures
            s@ == address_text(config.host@, config.http_port),
    {
        address(&config.host, config.http_port)
    }

    /// The address of the gRPC server.
    pub fn grpc_address(config: &AppConfig) -> (s: String)
        ensures
            s@ == address_text(config.host@, config.grpc_port),
    {
        address(&config.host, config.grpc_port)
    }

    /// Whether the gateway may start: it serves over mutual TLS only, so the
    /// certificate, key and CA paths must all be set.
    pub fn mtls_ready(config: &AppConfig) -> (r: bool)
        ensures
            r == mtls_configured(*config),
            r <==> (config.tts_gateway_service_cert_path@.len() > 0
                && config.tts_gateway_service_key_path@.len() > 0
                && config.grpc_tls_ca_path@.len() > 0),
    {
        !config.tts_gateway_service_cert_path.as_str().is_empty()
            && !config.tts_gateway_service_key_path.as_str().is_empty()
            && !config.grpc_tls_ca_path.as_str().is_empty()
    }

    /// Why the gateway refuses to start without mutual TLS.
    pub fn mtls_violation() -> (s: &'static str)
        ensures
            s@ == "Architectural Violation: mTLS certificates are strictly required. INSECURE mode is forbidden."@,
    {
        "Architectural Violation: mTLS certificates are strictly required. INSECURE mode is forbidden."
    }

    /// The identity the gateway's log lines carry.
    pub fn log_identity(config: &AppConfig) -> (f: SutsV4Formatter)
        ensures
            f.service_name@ == "tts-gateway-service"@,
            f.service_version@ == config.service_version@,
            f.service_env@ == config.env@,
    {
        SutsV4Formatter::for_gateway(config.service_version.as_str(), config.env.as_str())
    }
}

/// The gateway starts only with all three mutual-TLS paths set: an empty
/// certificate, key or CA path each keeps it from starting, and with all
/// three set it starts.
pub proof fn lemma_mtls_needs_every_path(c: AppConfig)
    ensures
        mtls_configured(c) ==> c.tts_gateway_service_cert_path@.len() > 0,
        mtls_configured(c) ==> c.tts_gateway_service_key_path@.len() > 0,
        mtls_configured(c) ==> c.grpc_tls_ca_path@.len() > 0,
        c.tts_gateway_service_cert_path@.len() > 0 && c.tts_gateway_service_key_path@.len() > 0
            && c.grpc_tls_ca_path@.len() > 0 ==> mtls_configured(c),
{
}

} // verus!
