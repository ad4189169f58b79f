//! The streaming synthesis call: which requests are admitted, what each
//! engine is asked for, and how the engine's audio chunks are relayed back.
use vstd::prelude::*;
use crate::error::{GatewayStatus, StatusCode};
use crate::routing::{Engine, routed_engine, route_voice};
use crate::text::{signed_decimal, format_i64};

verus! {

/// The tracing metadata that came with a request.
#[derive(Clone, Debug, PartialEq, Eq)]
pub struct RequestMetadata {
    pub trace_id: Option<String>,
    pub span_id: Option<String>,
    pub tenant_id: Option<String>,
}

/// What the gateway reads of a streaming synthesis request.
#[derive(Clone, Debug, PartialEq, Eq)]
pub struct StreamRequest {
    pub text: String,
    pub voice_id: String,
    /// The audio configuration's sample rate; `None` when the request holds
    /// no audio configuration.
    pub sample_rate_hertz: Option<i32>,
    pub cloning_audio_data: Option<Vec<u8>>,
}

/// An admitted request: the sample rate to synthesise at and the engine it
/// is routed to.
#[derive(Clone, Debug, PartialEq, Eq)]
pub struct StreamPlan {
    pub sample_rate_hertz: i32,
    pub engine: Engine,
}

/// Why a streaming request is refused before any engine is asked.
#[derive(Clone, Copy, Debug, PartialEq, Eq, Structural)]
pub enum StreamRefusal {
    /// The request carries no tenant, or an empty one.
    MissingTenant,
    /// The request carries no audio configuration.
    MissingAudioConfig,
}

/// What one engine is asked to synthesise (the tuning numbers aside).
#[derive(Clone, Debug, PartialEq, Eq)]
pub struct UpstreamRequest {
    pub engine: Engine,
    pub text: String,
    pub language_code: String,
    /// The voice sample to clone, sent to Coqui only.
    pub reference_audio: Option<Vec<u8>>,
    /// The audio format asked for, sent to Coqui only.
    pub output_format: Option<String>,
    pub sample_rate: i32,
}

/// One piece of the audio stream sent back to the caller.
#[derive(Clone, Debug, PartialEq, Eq)]
pub struct StreamChunk {
    pub audio_content: Vec<u8>,
    pub content_type: String,
    pub provider_used: String,
}

/// What the engine's stream delivered next.
#[derive(Clone, Debug, PartialEq, Eq)]
pub enum ChunkEvent {
    /// A chunk of audio.
    Audio(Vec<u8>),
    /// The stream failed.
    Failed,
    /// The stream ended.
    Finished,
}

/// What the relay does with an event of the engine's stream.
#[derive(Clone, Debug, PartialEq, Eq)]
pub enum RelayStep {
    /// Send this chunk to the caller and wait for the next event.
    Emit(StreamChunk),
    /// Send nothing and wait for the next event.
    Skip,
    /// Close the caller's stream.
    Stop,
}

/// The request carries no tenant, or an empty one.
pub open spec fn tenant_missing(meta: RequestMetadata) -> bool {
    match meta.tenant_id {
        Some(t) => t@.len() == 0,
        None => true,
    }
}

/// The content type of the relayed audio: 16-bit linear PCM at `rate`.
pub open spec fn pcm_content_type(rate: i32) -> Seq<char> {
    "audio/L16;rate="@ + signed_decimal(rate as int)
}

pub open spec fn bytes_of(o: Option<Vec<u8>>) -> Option<Seq<u8>> {
    match o {
        Some(v) => Some(v@),
        None => None,
    }
}

pub open spec fn text_of(o: Option<String>) -> Option<Seq<char>> {
    match o {
        Some(s) => Some(s@),
        None => None,
    }
}

/// The status a request without a tenant is refused with.
pub fn missing_tenant_status() -> (st: GatewayStatus)
    ensures
        st.code == StatusCode::InvalidArgument,
        st.message@ == "tenant_id is strictly required"@,
{
    GatewayStatus::new(StatusCode::InvalidArgument, "tenant_id is strictly required")
}

/// The status a request without an audio configuration is refused with.
pub fn missing_audio_config_status() -> (st: GatewayStatus)
    ensures
        st.code == StatusCode::InvalidArgument,
        st.message@ == "AudioConfig is mandatory."@,
{
    GatewayStatus::new(StatusCode::InvalidArgument, "AudioConfig is mandatory.")
}

impl StreamRefusal {
    /// The status the refusal is answered with.
    pub open spec fn answer_message(self) -> Seq<char> {
        match self {
            StreamRefusal::MissingTenant => "tenant_id is strictly required"@,
            StreamRefusal::MissingAudioConfig => "AudioConfig is mandatory."@,
        }
    }

    /// The status the refusal is answered with: invalid argument, with its
    /// reason.
    pub fn to_status(&self) -> (st: GatewayStatus)
        ensures
            st.code == StatusCode::InvalidArgument,
            st.message@ == self.answer_message(),
    {
        match self {
            StreamRefusal::MissingTenant => missing_tenant_status(),
            StreamRefusal::MissingAudioConfig => missing_audio_config_status(),
        }
    }
}

/// The status a request is refused with when its engine is unavailable.
pub fn all_engines_failed_status() -> (st: GatewayStatus)
    ensures
        st.code == StatusCode::Unavailable,
        st.message@ == "Tüm uzman TTS motorları devre dışı. Lütfen sistemi kontrol edin."@,
{
    GatewayStatus::new(
        StatusCode::Unavailable,
        "Tüm uzman TTS motorları devre dışı. Lütfen sistemi kontrol edin.",
    )
}

/// The answer to the unary `Synthesize` call, which the gateway no longer
/// serves.
pub fn unary_synthesize_status() -> (st: GatewayStatus)
    ensures
        st.code == StatusCode::Unimplemented,
        st.message@ == "Unary Synthesize is deprecated. Use SynthesizeStream."@,
{
    GatewayStatus::new(
        StatusCode::Unimplemented,
        "Unary Synthesize is deprecated. Use SynthesizeStream.",
    )
}

/// The answer to the `ListVoices` call, which the gateway does not serve.
pub fn list_voices_status() -> (st: GatewayStatus)
    ensures
        st.code == StatusCode::Unimplemented,
        st.message@ == "ListVoices not implemented yet"@,
{
    GatewayStatus::new(StatusCode::Unimplemented, "ListVoices not implemented yet")
}

/// Admits or refuses a streaming request. A request needs a non-empty
/// tenant, then an audio configuration; an admitted one is planned at its
/// sample rate on the engine its voice selector is routed to.
pub fn plan_stream(meta: &RequestMetadata, req: &StreamRequest) -> (r: Result<
    StreamPlan,
    StreamRefusal,
>)
    ensures
        tenant_missing(*meta) ==> r == Err::<StreamPlan, StreamRefusal>(
            StreamRefusal::MissingTenant,
        ),
        !tenant_missing(*meta) && req.sample_rate_hertz is None ==> r == Err::<
            StreamPlan,
            StreamRefusal,
        >(StreamRefusal::MissingAudioConfig),
        !tenant_missing(*meta) && req.sample_rate_hertz is Some ==> r is Ok
            && r->Ok_0.sample_rate_hertz == req.sample_rate_hertz->Some_0 && r->Ok_0.engine
            == routed_engine(req.voice_id@),
{
    let tenant_ok = match &meta.tenant_id {
        Some(t) => !t.as_str().is_empty(),
        None => false,
    };
    if !tenant_ok {
        return Err(StreamRefusal::MissingTenant);
    }
    match req.sample_rate_hertz {
        None => Err(StreamRefusal::MissingAudioConfig),
        Some(rate) => Ok(
            StreamPlan { sample_rate_hertz: rate, engine: route_voice(req.voice_id.as_str()) },
        ),
    }
}

/// A copy of `bytes`.
fn copy_bytes(bytes: &Vec<u8>) -> (r: Vec<u8>)
    ensures
        r@ == bytes@,
{
    let mut r: Vec<u8> = Vec::new();
    let mut i: usize = 0;
    while i < bytes.len()
        invariant
            i <= bytes.len(),
            r@ =~= bytes@.subrange(0, i as int),
        decreases bytes.len() - i,
    {
        r.push(bytes[i]);
        i += 1;
    }
    r
}

/// `u` is the request `engine` is sent for `req` at `sample_rate`.
pub open spec fn is_upstream_request(u: UpstreamRequest, req: StreamRequest, sample_rate: i32, engine: Engine) -> bool {
    &&& u.engine == engine
    &&& u.text@ == req.text@
    &&& u.sample_rate == sample_rate
    &&& u.language_code@ == (if engine == Engine::Mms {
            "tur"@
        } else {
            "tr"@
        })
    &&& bytes_of(u.reference_audio) == (if engine == Engine::Mms {
            None::<Seq<u8>>
        } else {
            bytes_of(req.cloning_audio_data)
        })
    &&& text_of(u.output_format) == (if engine == Engine::Mms {
            None::<Seq<char>>
        } else {
            Some("pcm"@)
        })
}

/// The request `engine` is sent for `req` at `sample_rate`: the text in
/// Turkish ("tur" for MMS, "tr" for Coqui); Coqui also gets the voice sample
/// to clone and is asked for PCM.
pub fn upstream_request(req: &StreamRequest, sample_rate: i32, engine: Engine) -> (u:
    UpstreamRequest)
    ensures
        is_upstream_request(u, *req, sample_rate, engine),
        u.engine == engine,
        u.text@ == req.text@,
        u.sample_rate == sample_rate,
        engine == Engine::Mms ==> u.language_code@ == "tur"@ && u.reference_audio is None
            && u.output_format is None,
        engine == Engine::Coqui ==> u.language_code@ == "tr"@ && bytes_of(u.reference_audio)
            == bytes_of(req.cloning_audio_data) && text_of(u.output_format) == Some("pcm"@),
{
    match engine {
        Engine::Mms => UpstreamRequest {
            engine,
            text: req.text.clone(),
            language_code: "tur".to_owned(),
            reference_audio: None,
            output_format: None,
            sample_rate,
        },
        Engine::Coqui => UpstreamRequest {
            engine,
            text: req.text.clone(),
            language_code: "tr".to_owned(),
            reference_audio: match &req.cloning_audio_data {
                Some(a) => Some(copy_bytes(a)),
                None => None,
            },
            output_format: Some("pcm".to_owned()),
            sample_rate,
        },
    }
}

/// Whatever engine a request is routed to, the engine is asked for exactly
/// the caller's text, at the call's sample rate; only MMS is asked in "tur"
/// and without a voice sample, only Coqui in "tr" and for PCM.
pub proof fn lemma_upstream_request_carries_caller_text(
    u: UpstreamRequest,
    req: StreamRequest,
    sample_rate: i32,
    engine: Engine,
)
    requires
        is_upstream_request(u, req, sample_rate, engine),
    ensures
        u.text@ == req.text@,
        u.text@.len() == req.text@.len(),
        u.engine == engine,
        u.sample_rate == sample_rate,
        engine == Engine::Mms ==> u.language_code@ == "tur"@ && u.reference_audio is None
            && u.output_format is None,
        engine == Engine::Coqui ==> u.language_code@ == "tr"@ && bytes_of(u.reference_audio)
            == bytes_of(req.cloning_audio_data) && text_of(u.output_format) == Some("pcm"@),
{
}

/// The tracing ids that the gateway forwards to `engine` with a request:
/// the Coqui engine gets the request's trace id, the MMS engine none.
pub open spec fn forwarded(engine: Engine, meta: RequestMetadata) -> RequestMetadata {
    match engine {
        Engine::Coqui => RequestMetadata { trace_id: meta.trace_id, span_id: None, tenant_id: None },
        Engine::Mms => RequestMetadata { trace_id: None, span_id: None, tenant_id: None },
    }
}

/// The tracing ids to forward to `engine`, as `forwarded` says.
pub fn forwarded_ids(engine: Engine, meta: &RequestMetadata) -> (r: RequestMetadata)
    ensures
        r == forwarded(engine, *meta),
{
    match engine {
        Engine::Coqui => {
            let trace_id = match &meta.trace_id {
                Some(t) => Some(t.clone()),
                None => None,
            };
            RequestMetadata { trace_id, span_id: None, tenant_id: None }
        },
        Engine::Mms => RequestMetadata { trace_id: None, span_id: None, tenant_id: None },
    }
}

/// The content type of the relayed audio (`audio/L16;rate=<rate>`).
pub fn content_type(rate: i32) -> (s: String)
    ensures
        s@ == pcm_content_type(rate),
{
    let mut s = "audio/L16;rate=".to_owned();
    let digits = format_i64(rate as i64);
    s.append(digits.as_str());
    s
}

/// What the relay does with the next event of `engine`'s stream: a non-empty
/// audio chunk is sent on, labelled with the engine and the PCM content type
/// at `sample_rate`; an empty one is passed over; a failure or the end of the
/// stream closes the caller's stream.
pub fn relay_step(event: ChunkEvent, sample_rate: i32, engine: Engine) -> (s: RelayStep)
    ensures
        match event {
            ChunkEvent::Audio(a) => if a@.len() == 0 {
                s is Skip
            } else {
                s matches RelayStep::Emit(c) && c.audio_content@ == a@ && c.content_type@
                    == pcm_content_type(sample_rate) && c.provider_used@ == engine.label()
            },
            _ => s is Stop,
        },
{
    match event {
        ChunkEvent::Audio(a) => {
            if a.len() == 0 {
                RelayStep::Skip
            } else {
                RelayStep::Emit(
                    StreamChunk {
                        audio_content: a,
                        content_type: content_type(sample_rate),
                        provider_used: engine.name().to_owned(),
                    },
                )
            }
        },
        _ => RelayStep::Stop,
    }
}

/// Where a streaming call stands.
#[derive(Clone, Copy, Debug, PartialEq, Eq, Structural)]
pub enum CallPhase {
    /// The routed engine is being asked.
    Asking,
    /// The routed engine accepted; its audio is being relayed.
    Streaming,
    /// The routed engine refused; the call is answered as unavailable.
    Refused,
}

/// The phase a call is in after the engine's answer: only an asking call
/// moves, to streaming when the engine accepted and to refused when it did
/// not; the other phases are final.
pub open spec fn after_answer(phase: CallPhase, accepted: bool) -> CallPhase {
    match phase {
        CallPhase::Asking => if accepted {
            CallPhase::Streaming
        } else {
            CallPhase::Refused
        },
        _ => phase,
    }
}

/// What the gateway does next in a streaming call.
#[derive(Clone, Debug, PartialEq, Eq)]
pub enum CallAction {
    /// Ask this engine to synthesise.
    Ask(UpstreamRequest),
    /// Relay the audio of `engine` at `sample_rate`.
    Relay { engine: Engine, sample_rate: i32 },
    /// Refuse the call with this status.
    Refuse(GatewayStatus),
}

/// A streaming call in progress: the admitted request, its engine, and
/// where the call stands.
pub struct StreamCall {
    request: StreamRequest,
    sample_rate: i32,
    engine: Engine,
    phase: CallPhase,
}

impl StreamCall {
    /// The request being served.
    pub closed spec fn request(self) -> StreamRequest {
        self.request
    }

    /// The sample rate the call synthesises at.
    pub closed spec fn sample_rate(self) -> i32 {
        self.sample_rate
    }

    /// The engine the call is routed to.
    pub closed spec fn engine(self) -> Engine {
        self.engine
    }

    /// Where the call stands.
    pub closed spec fn phase(self) -> CallPhase {
        self.phase
    }

    /// Opens a call for `req`, or refuses it as `plan_stream` says.
    pub fn open(meta: &RequestMetadata, req: StreamRequest) -> (r: Result<StreamCall, StreamRefusal>)
        ensures
            tenant_missing(*meta) ==> r is Err && r->Err_0 == StreamRefusal::MissingTenant,
            !tenant_missing(*meta) && req.sample_rate_hertz is None ==> r is Err && r->Err_0
                == StreamRefusal::MissingAudioConfig,
            !tenant_missing(*meta) && req.sample_rate_hertz is Some ==> r is Ok
                && r->Ok_0.request() == req && r->Ok_0.sample_rate() == req.sample_rate_hertz->Some_0
                && r->Ok_0.engine() == routed_engine(req.voice_id@) && r->Ok_0.phase()
                == CallPhase::Asking,
    {
        match plan_stream(meta, &req) {
            Ok(plan) => Ok(
                StreamCall {
                    request: req,
                    sample_rate: plan.sample_rate_hertz,
                    engine: plan.engine,
                    phase: CallPhase::Asking,
                },
            ),
            Err(refusal) => Err(refusal),
        }
    }

    /// The next step: ask the routed engine; once it accepted, relay its
    /// audio; once it refused, answer the call as unavailable (no other
    /// engine is tried).
    pub fn next_action(&self) -> (a: CallAction)
        ensures
            self.phase() == CallPhase::Asking ==> (a matches CallAction::Ask(u)
                && is_upstream_request(u, self.request(), self.sample_rate(), self.engine())),
            self.phase() == CallPhase::Asking ==> (a matches CallAction::Ask(u) && u.engine
                == self.engine() && u.text@ == self.request().text@ && u.sample_rate
                == self.sample_rate()),
            self.phase() == CallPhase::Streaming ==> a == (CallAction::Relay {
                engine: self.engine(),
                sample_rate: self.sample_rate(),
            }),
            self.phase() == CallPhase::Refused ==> (a matches CallAction::Refuse(st) && st.code
                == StatusCode::Unavailable && st.message@
                == "Tüm uzman TTS motorları devre dışı. Lütfen sistemi kontrol edin."@),
    {
        match self.phase {
            CallPhase::Asking => CallAction::Ask(
                upstream_request(&self.request, self.sample_rate, self.engine),
            ),
            CallPhase::Streaming => CallAction::Relay {
                engine: self.engine,
                sample_rate: self.sample_rate,
            },
            CallPhase::Refused => CallAction::Refuse(all_engines_failed_status()),
        }
    }

    /// Records the engine's answer: whether it accepted the request.
    pub fn engine_answered(&mut self, accepted: bool)
        ensures
            final(self).request() == old(self).request(),
            final(self).sample_rate() == old(self).sample_rate(),
            final(self).engine() == old(self).engine(),
            final(self).phase() == after_answer(old(self).phase(), accepted),
    {
        if self.phase == CallPhase::Asking {
            self.phase = if accepted {
                CallPhase::Streaming
            } else {
                CallPhase::Refused
            };
        }
    }
}

/// A call's outcome is fixed by the routed engine's first answer: acceptance
/// leads to relaying that engine's audio, refusal to the unavailable answer,
/// and no later answer changes either.
pub proof fn lemma_first_answer_decides(first: bool, later: Seq<bool>)
    ensures
        later.fold_left(after_answer(CallPhase::Asking, first), |p: CallPhase, a: bool| after_answer(p, a))
            == (if first {
            CallPhase::Streaming
        } else {
            CallPhase::Refused
        }),
    decreases later.len(),
{
    if later.len() > 0 {
        lemma_first_answer_decides(first, later.drop_last());
    }
}

} // verus!
