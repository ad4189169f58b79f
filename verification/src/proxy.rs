//! The unary synthesis proxy: which HTTP engine a request goes to, what it
//! is sent, and how the engine's reply becomes an answer or an error.
use vstd::prelude::*;
use crate::error::GatewayError;
use crate::text::{is_blank, blank};

verus! {

/// An HTTP speech engine behind the unary proxy.
#[derive(Clone, Copy, Debug, PartialEq, Eq, Structural)]
pub enum ProxyBackend {
    /// Coqui, which clones voices.
    Coqui,
    /// Edge, the standard voices.
    Edge,
}

impl ProxyBackend {
    /// The engine's name in error messages.
    pub open spec fn label(self) -> Seq<char> {
        match self {
            ProxyBackend::Coqui => "Coqui"@,
            ProxyBackend::Edge => "Edge"@,
        }
    }

    /// The engine's name in answers (`engine_used`).
    pub open spec fn service_name(self) -> Seq<char> {
        match self {
            ProxyBackend::Coqui => "sentiric-tts-coqui-service"@,
            ProxyBackend::Edge => "sentiric-tts-edge-service"@,
        }
    }
}

/// What came of sending a request to an HTTP engine.
#[derive(Clone, Debug, PartialEq, Eq)]
pub enum HttpOutcome {
    /// The request could not be sent; the reason.
    SendFailed(String),
    /// The engine answered with a status outside 2xx: the status as text and
    /// the body of the answer (empty when it could not be read).
    Rejected { status: String, body: String },
    /// The engine accepted, and its audio could not be read; the reason.
    Unreadable(String),
    /// The engine accepted and sent this audio.
    Audio(Vec<u8>),
}

/// A unary synthesis answer.
#[derive(Clone, Debug, PartialEq, Eq)]
pub struct SynthesizedAudio {
    pub audio_content: Vec<u8>,
    pub engine_used: String,
}

/// A request that carries a voice sample to clone goes to Coqui; the others
/// go to Edge.
pub fn backend_for(has_speaker_wav_url: bool) -> (b: ProxyBackend)
    ensures
        b == (if has_speaker_wav_url {
            ProxyBackend::Coqui
        } else {
            ProxyBackend::Edge
        }),
{
    if has_speaker_wav_url {
        ProxyBackend::Coqui
    } else {
        ProxyBackend::Edge
    }
}

/// The address of the cloning engine; cloning is refused when none is
/// configured.
pub fn coqui_target(url: &Option<String>) -> (r: Result<String, GatewayError>)
    ensures
        match url {
            Some(u) => r matches Ok(t) && t@ == u@,
            None => r == Err::<String, GatewayError>(GatewayError::CloningNotConfigured),
        },
{
    match url {
        Some(u) => Ok(u.clone()),
        None => Err(GatewayError::CloningNotConfigured),
    }
}

/// The voice Edge is asked for: the request's selector, unless it is absent
/// or blank, in which case the Turkish default voice.
pub open spec fn edge_voice_for(selector: Option<String>) -> Seq<char> {
    match selector {
        Some(v) => if is_blank(v@) {
            "tr-TR-EmelNeural"@
        } else {
            v@
        },
        None => "tr-TR-EmelNeural"@,
    }
}

/// The voice Edge is asked for.
pub fn edge_voice(selector: &Option<String>) -> (v: String)
    ensures
        v@ == edge_voice_for(*selector),
        selector matches Some(s) ==> (!is_blank(s@) ==> v@ == s@),
        (selector is None || (selector matches Some(s) && is_blank(s@))) ==> v@
            == "tr-TR-EmelNeural"@,
{
    match selector {
        Some(v) => if blank(v.as_str()) {
            "tr-TR-EmelNeural".to_owned()
        } else {
            v.clone()
        },
        None => "tr-TR-EmelNeural".to_owned(),
    }
}

/// Whether an HTTP status is a success (2xx).
pub fn is_success_status(code: u16) -> (r: bool)
    ensures
        r == (200 <= code && code <= 299),
{
    200 <= code && code <= 299
}

fn service_label(backend: ProxyBackend) -> (s: &'static str)
    ensures
        s@ == backend.label(),
{
    match backend {
        ProxyBackend::Coqui => "Coqui",
        ProxyBackend::Edge => "Edge",
    }
}

/// The answer, or the error, that an engine's reply comes to.
pub fn proxy_result(backend: ProxyBackend, outcome: HttpOutcome) -> (r: Result<
    SynthesizedAudio,
    GatewayError,
>)
    ensures
        match outcome {
            HttpOutcome::SendFailed(e) => r matches Err(GatewayError::UpstreamUnavailable(m)) && m@
                == backend.label() + " servisine ulaşılamıyor: "@ + e@,
            HttpOutcome::Rejected { status, body } => r matches Err(GatewayError::UpstreamError(m))
                && m@ == backend.label() + " servisi hata döndürdü ("@ + status@ + "): "@ + body@,
            HttpOutcome::Unreadable(e) => r matches Err(GatewayError::UpstreamReadError(m)) && m@
                == e@,
            HttpOutcome::Audio(a) => r matches Ok(s) && s.audio_content@ == a@ && s.engine_used@
                == backend.service_name(),
        },
{
    match outcome {
        HttpOutcome::SendFailed(e) => {
            let mut m = service_label(backend).to_owned();
            m.append(" servisine ulaşılamıyor: ");
            m.append(e.as_str());
            Err(GatewayError::UpstreamUnavailable(m))
        },
        HttpOutcome::Rejected { status, body } => {
            let mut m = service_label(backend).to_owned();
            m.append(" servisi hata döndürdü (");
            m.append(status.as_str());
            m.append("): ");
            m.append(body.as_str());
            Err(GatewayError::UpstreamError(m))
        },
        HttpOutcome::Unreadable(e) => Err(GatewayError::UpstreamReadError(e)),
        HttpOutcome::Audio(a) => {
            let engine_used = match backend {
                ProxyBackend::Coqui => "sentiric-tts-coqui-service".to_owned(),
                ProxyBackend::Edge => "sentiric-tts-edge-service".to_owned(),
            };
            Ok(SynthesizedAudio { audio_content: a, engine_used })
        },
    }
}

/// A voice selector that is not blank is passed to Edge as given, whatever
/// it names; the Turkish default voice is used only when the selector is
/// absent or blank.
pub proof fn lemma_edge_voice_keeps_selector(selector: Option<String>)
    ensures
        selector matches Some(s) ==> (!is_blank(s@) ==> edge_voice_for(selector) == s@),
        selector is None ==> edge_voice_for(selector) == "tr-TR-EmelNeural"@,
        selector matches Some(s) ==> (is_blank(s@) ==> edge_voice_for(selector)
            == "tr-TR-EmelNeural"@),
{
}

} // verus!
