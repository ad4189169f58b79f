use sentiric_tts_gateway::app::App;
use sentiric_tts_gateway::config::{AppConfig, ConfigOverrides, RawConfig};
use sentiric_tts_gateway::error::{GatewayError, GatewayStatus, StatusCode};
use sentiric_tts_gateway::health::{health_reply, not_found_reply, route, MetricsRoute, GRPC_REQUESTS_TOTAL};
use sentiric_tts_gateway::logger::{severity, FieldValue, LogLevel, SutsV4Formatter, SutsVisitor};
use sentiric_tts_gateway::proxy::{
    backend_for, coqui_target, edge_voice, is_success_status, proxy_result, HttpOutcome, ProxyBackend,
};
use sentiric_tts_gateway::routing::{route_voice, Engine};
use sentiric_tts_gateway::synthesis::{
    content_type, forwarded_ids, list_voices_status, plan_stream, relay_step, unary_synthesize_status,
    upstream_request, CallAction, ChunkEvent, RelayStep, RequestMetadata, StreamCall,
    StreamRefusal, StreamRequest,
};
use sentiric_tts_gateway::upstream::{is_insecure_url, upstream_metadata, upstream_tls_domain};

fn meta(tenant: Option<&str>) -> RequestMetadata {
    RequestMetadata {
        trace_id: Some("trace-1".to_string()),
        span_id: None,
        tenant_id: tenant.map(|t| t.to_string()),
    }
}

fn request(voice: &str, rate: Option<i32>) -> StreamRequest {
    StreamRequest {
        text: "Merhaba".to_string(),
        voice_id: voice.to_string(),
        sample_rate_hertz: rate,
        cloning_audio_data: Some(vec![1, 2, 3]),
    }
}

#[test]
fn selectors_route_to_mms_or_coqui() {
    assert_eq!(route_voice("mms:tur"), Engine::Mms);
    assert_eq!(route_voice("mms:tr"), Engine::Mms);
    assert_eq!(route_voice("coqui:default"), Engine::Coqui);
    assert_eq!(route_voice("omnivoice:warm"), Engine::Coqui);
    assert_eq!(route_voice("unknown-voice"), Engine::Coqui);
    assert_eq!(route_voice(""), Engine::Coqui);
    assert_eq!(route_voice("MMS:tur"), Engine::Coqui);
    assert_eq!(Engine::Coqui.name(), "coqui");
    assert_eq!(Engine::Mms.name(), "mms");
}

#[test]
fn requests_need_a_tenant_then_an_audio_config() {
    assert_eq!(plan_stream(&meta(None), &request("mms:tur", None)), Err(StreamRefusal::MissingTenant));
    assert_eq!(plan_stream(&meta(Some("")), &request("mms:tur", Some(16000))), Err(StreamRefusal::MissingTenant));
    assert_eq!(plan_stream(&meta(Some("acme")), &request("mms:tur", None)), Err(StreamRefusal::MissingAudioConfig));
    assert_eq!(
        StreamRefusal::MissingTenant.to_status(),
        GatewayStatus { code: StatusCode::InvalidArgument, message: "tenant_id is strictly required".to_string() }
    );
    assert_eq!(
        StreamRefusal::MissingAudioConfig.to_status(),
        GatewayStatus { code: StatusCode::InvalidArgument, message: "AudioConfig is mandatory.".to_string() }
    );
    let plan = plan_stream(&meta(Some("acme")), &request("mms:tur", Some(16000))).unwrap();
    assert_eq!(plan.sample_rate_hertz, 16000);
    assert_eq!(plan.engine, Engine::Mms);
}

#[test]
fn upstream_requests_per_engine() {
    let req = request("coqui:Selin", Some(24000));
    let c = upstream_request(&req, 24000, Engine::Coqui);
    assert_eq!(c.language_code, "tr");
    assert_eq!(c.reference_audio, Some(vec![1, 2, 3]));
    assert_eq!(c.output_format.as_deref(), Some("pcm"));
    assert_eq!(c.text, "Merhaba");
    assert_eq!(c.sample_rate, 24000);
    let m = upstream_request(&req, 24000, Engine::Mms);
    assert_eq!(m.language_code, "tur");
    assert_eq!(m.reference_audio, None);
    assert_eq!(m.output_format, None);
}

#[test]
fn refused_engine_answers_unavailable_at_once() {
    let mut call = StreamCall::open(&meta(Some("acme")), request("coqui:x", Some(22050))).unwrap();
    match call.next_action() {
        CallAction::Ask(u) => {
            assert_eq!(u.engine, Engine::Coqui);
            assert_eq!(u.sample_rate, 22050);
        }
        other => panic!("expected an engine request, got {:?}", other),
    }
    call.engine_answered(false);
    match call.next_action() {
        CallAction::Refuse(st) => {
            assert_eq!(st.code, StatusCode::Unavailable);
            assert_eq!(st.message, "Tüm uzman TTS motorları devre dışı. Lütfen sistemi kontrol edin.");
        }
        other => panic!("expected a refusal, got {:?}", other),
    }
    call.engine_answered(true);
    assert!(matches!(call.next_action(), CallAction::Refuse(_)));
}

#[test]
fn accepted_engine_is_relayed() {
    let mut call = StreamCall::open(&meta(Some("acme")), request("mms:tur", Some(16000))).unwrap();
    match call.next_action() {
        CallAction::Ask(u) => assert_eq!(u.engine, Engine::Mms),
        other => panic!("expected an engine request, got {:?}", other),
    }
    call.engine_answered(true);
    assert_eq!(call.next_action(), CallAction::Relay { engine: Engine::Mms, sample_rate: 16000 });
    call.engine_answered(false);
    assert_eq!(call.next_action(), CallAction::Relay { engine: Engine::Mms, sample_rate: 16000 });
    assert_eq!(
        StreamCall::open(&meta(None), request("x", Some(1))).err(),
        Some(StreamRefusal::MissingTenant)
    );
}

#[test]
fn relay_forwards_non_empty_chunks() {
    assert_eq!(content_type(16000), "audio/L16;rate=16000");
    assert_eq!(content_type(-1), "audio/L16;rate=-1");
    let events = vec![
        ChunkEvent::Audio(vec![9, 9]),
        ChunkEvent::Audio(vec![]),
        ChunkEvent::Audio(vec![7]),
        ChunkEvent::Failed,
        ChunkEvent::Audio(vec![5]),
    ];
    let mut sent = Vec::new();
    for e in events {
        match relay_step(e, 24000, Engine::Mms) {
            RelayStep::Emit(c) => {
                assert_eq!(c.content_type, "audio/L16;rate=24000");
                assert_eq!(c.provider_used, "mms");
                sent.push(c.audio_content);
            }
            RelayStep::Skip => {}
            RelayStep::Stop => break,
        }
    }
    assert_eq!(sent, vec![vec![9, 9], vec![7]]);
    assert_eq!(relay_step(ChunkEvent::Finished, 1, Engine::Coqui), RelayStep::Stop);
}

#[test]
fn unimplemented_calls() {
    assert_eq!(unary_synthesize_status().code, StatusCode::Unimplemented);
    assert_eq!(unary_synthesize_status().message, "Unary Synthesize is deprecated. Use SynthesizeStream.");
    assert_eq!(list_voices_status().message, "ListVoices not implemented yet");
}

#[test]
fn errors_map_to_statuses() {
    let s = GatewayError::UpstreamUnavailable("down".to_string()).to_status();
    assert_eq!(s, GatewayStatus { code: StatusCode::Unavailable, message: "down".to_string() });
    let s = GatewayError::CloningNotConfigured.to_status();
    assert_eq!(s.code, StatusCode::FailedPrecondition);
    assert_eq!(s.message, "Bu sunucu ses klonlama için yapılandırılmamıştır.");
    let s = GatewayError::UpstreamError("500".to_string()).to_status();
    assert_eq!(s, GatewayStatus { code: StatusCode::Internal, message: "Uzman TTS servisi hata döndürdü: 500".to_string() });
    let s = GatewayError::UpstreamReadError("eof".to_string()).to_status();
    assert_eq!(s.message, "Uzman TTS servisinden ses verisi okunamadı: eof");
    assert_eq!(GatewayError::UpstreamUnavailable("x".to_string()).message(), "Uzman TTS servisine ulaşılamıyor: x");
    assert_eq!(StatusCode::InvalidArgument.number(), 3);
    assert_eq!(StatusCode::FailedPrecondition.number(), 9);
    assert_eq!(StatusCode::Unimplemented.number(), 12);
    assert_eq!(StatusCode::Internal.number(), 13);
    assert_eq!(StatusCode::Unavailable.number(), 14);
}

#[test]
fn proxy_decisions() {
    assert_eq!(backend_for(true), ProxyBackend::Coqui);
    assert_eq!(backend_for(false), ProxyBackend::Edge);
    assert_eq!(coqui_target(&None), Err(GatewayError::CloningNotConfigured));
    assert_eq!(coqui_target(&Some("http://c".to_string())), Ok("http://c".to_string()));
    assert_eq!(edge_voice(&None), "tr-TR-EmelNeural");
    assert_eq!(edge_voice(&Some("  ".to_string())), "tr-TR-EmelNeural");
    assert_eq!(edge_voice(&Some("tr-TR-AhmetNeural".to_string())), "tr-TR-AhmetNeural");
    assert!(is_success_status(200));
    assert!(is_success_status(299));
    assert!(!is_success_status(300));
    assert!(!is_success_status(199));
    assert_eq!(
        proxy_result(ProxyBackend::Coqui, HttpOutcome::SendFailed("refused".to_string())),
        Err(GatewayError::UpstreamUnavailable("Coqui servisine ulaşılamıyor: refused".to_string()))
    );
    assert_eq!(
        proxy_result(
            ProxyBackend::Edge,
            HttpOutcome::Rejected { status: "500 Internal Server Error".to_string(), body: "boom".to_string() }
        ),
        Err(GatewayError::UpstreamError("Edge servisi hata döndürdü (500 Internal Server Error): boom".to_string()))
    );
    assert_eq!(
        proxy_result(ProxyBackend::Edge, HttpOutcome::Unreadable("eof".to_string())),
        Err(GatewayError::UpstreamReadError("eof".to_string()))
    );
    let ok = proxy_result(ProxyBackend::Coqui, HttpOutcome::Audio(vec![1])).unwrap();
    assert_eq!(ok.audio_content, vec![1]);
    assert_eq!(ok.engine_used, "sentiric-tts-coqui-service");
    let ok = proxy_result(ProxyBackend::Edge, HttpOutcome::Audio(vec![])).unwrap();
    assert_eq!(ok.engine_used, "sentiric-tts-edge-service");
}

#[test]
fn health_routes_and_answers() {
    assert_eq!(route("GET", "/metrics"), MetricsRoute::Metrics);
    assert_eq!(route("GET", "/health"), MetricsRoute::Health);
    assert_eq!(route("GET", "/healthz"), MetricsRoute::Health);
    assert_eq!(route("POST", "/health"), MetricsRoute::NotFound);
    assert_eq!(route("GET", "/"), MetricsRoute::NotFound);
    let r = health_reply(true, false);
    assert_eq!(r.status, 200);
    assert_eq!(r.body, r#"{"status":"ok", "coqui":true, "mms":false}"#);
    let r = health_reply(false, false);
    assert_eq!(r.status, 503);
    assert_eq!(r.body, r#"{"status":"error", "upstream":"all_disconnected"}"#);
    assert_eq!(not_found_reply().status, 404);
    assert_eq!(GRPC_REQUESTS_TOTAL, "sentiric_tts_gateway_grpc_requests_total");
}

#[test]
fn log_record_collection() {
    assert_eq!(severity(LogLevel::Trace), "DEBUG");
    assert_eq!(severity(LogLevel::Debug), "DEBUG");
    assert_eq!(severity(LogLevel::Info), "INFO");
    assert_eq!(severity(LogLevel::Warn), "WARN");
    assert_eq!(severity(LogLevel::Error), "ERROR");
    let mut v: SutsVisitor<f64> = SutsVisitor::new();
    v.record_str("event", "TTS_STREAM_REQUESTED");
    v.record_debug("message", "\"Motor deneniyor...\"");
    v.record_debug("trace_id", "\"abc\"");
    v.record_str("engine", "coqui");
    v.record_str("engine", "mms");
    v.record_value("count", FieldValue::UInt(3));
    v.record_value("ratio", FieldValue::Number(0.5));
    v.record_value("message", FieldValue::Bool(true));
    let r = v.finish();
    assert_eq!(r.event, "TTS_STREAM_REQUESTED");
    assert_eq!(r.message, "Motor deneniyor...");
    assert_eq!(r.trace_id, Some(FieldValue::Text("abc".to_string())));
    assert_eq!(r.span_id, None);
    assert_eq!(r.tenant_id, None);
    let mut attrs = r.attributes.clone();
    attrs.sort_by(|a, b| a.0.cmp(&b.0));
    assert_eq!(
        attrs,
        vec![
            ("count".to_string(), FieldValue::UInt(3)),
            ("engine".to_string(), FieldValue::Text("mms".to_string())),
            ("message".to_string(), FieldValue::Bool(true)),
            ("ratio".to_string(), FieldValue::Number(0.5)),
        ]
    );
    let identity = SutsV4Formatter::for_gateway("1.2.2", "production");
    let line = identity.log_line(LogLevel::Warn, r, &None, "2024-01-01T00:00:00+00:00".to_string());
    assert_eq!(line.schema_v, "1.0.0");
    assert_eq!(line.severity, "WARN");
    assert_eq!(line.host_name, "unknown");
    assert_eq!(line.service_name, "tts-gateway-service");
    assert_eq!(line.event, "TTS_STREAM_REQUESTED");
    assert_eq!(line.trace_id, Some(FieldValue::Text("abc".to_string())));
    assert_eq!(line.attributes.len(), 4);
    let empty: SutsVisitor<f64> = SutsVisitor::new();
    let r2 = empty.finish();
    let line = identity.log_line(LogLevel::Info, r2, &Some("pod-7".to_string()), String::new());
    assert_eq!(line.host_name, "pod-7");
    let empty: SutsVisitor<f64> = SutsVisitor::new();
    let r = empty.finish();
    assert_eq!(r.event, "UNKNOWN_EVENT");
    assert_eq!(r.message, "");
    assert!(r.attributes.is_empty());
}

#[test]
fn start_up_decisions() {
    let raw = RawConfig {
        env: Some("staging".to_string()),
        rust_log: None,
        service_version: None,
        host: None,
        http_port: None,
        grpc_port: None,
        tts_coqui_service_url: None,
        tts_mms_service_url: None,
        tts_omnivoice_service_url: None,
        grpc_tls_ca_path: None,
        tts_gateway_service_cert_path: Some(String::new()),
        tts_gateway_service_key_path: None,
    };
    let over = ConfigOverrides { listen_address: None, http_port: None, grpc_port: None, coqui_url: None, mms_url: None };
    let mut c: AppConfig = AppConfig::resolve(&raw, &over).unwrap();
    assert_eq!(App::metrics_address(&c), "0.0.0.0:14010");
    assert_eq!(App::grpc_address(&c), "0.0.0.0:14011");
    assert!(!App::mtls_ready(&c));
    c.tts_gateway_service_cert_path = "/c.crt".to_string();
    assert!(App::mtls_ready(&c));
    assert!(App::mtls_violation().starts_with("Architectural Violation"));
    let id = App::log_identity(&c);
    assert_eq!(
        id,
        SutsV4Formatter { service_name: "tts-gateway-service".to_string(), service_version: "1.2.2".to_string(), service_env: "staging".to_string() }
    );
}

#[test]
fn upstream_client_decisions() {
    assert!(is_insecure_url("http://tts-coqui-service:14031"));
    assert!(!is_insecure_url("https://tts-coqui-service:14031"));
    assert_eq!(upstream_tls_domain(), "sentiric.cloud");
    let h = upstream_metadata(&Some("t".to_string()), &None, &Some("acme".to_string()));
    assert_eq!(h, vec![("x-trace-id", "t".to_string()), ("x-tenant-id", "acme".to_string())]);
    assert!(upstream_metadata(&None, &None, &None).is_empty());
    let h = upstream_metadata(&Some("bad\nid".to_string()), &Some("span ü\t1".to_string()), &Some("x\u{7f}".to_string()));
    assert_eq!(h, vec![("x-span-id", "span ü\t1".to_string())]);
}

#[test]
fn tracing_ids_forwarded_per_engine() {
    let m = RequestMetadata {
        trace_id: Some("trace-1".to_string()),
        span_id: Some("span-1".to_string()),
        tenant_id: Some("tenant-1".to_string()),
    };
    assert_eq!(
        forwarded_ids(Engine::Coqui, &m),
        RequestMetadata { trace_id: Some("trace-1".to_string()), span_id: None, tenant_id: None }
    );
    assert_eq!(
        forwarded_ids(Engine::Mms, &m),
        RequestMetadata { trace_id: None, span_id: None, tenant_id: None }
    );
    let none = RequestMetadata { trace_id: None, span_id: None, tenant_id: None };
    assert_eq!(forwarded_ids(Engine::Coqui, &none), none);
}
