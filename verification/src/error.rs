//! The gateway's errors and the gRPC status each one is answered with.
use vstd::prelude::*;

verus! {

/// The gRPC status codes the gateway answers with.
#[derive(Clone, Copy, Debug, PartialEq, Eq, Structural)]
pub enum StatusCode {
    InvalidArgument,
    FailedPrecondition,
    Unimplemented,
    Internal,
    Unavailable,
}

impl StatusCode {
    /// The code's number in the gRPC protocol.
    pub open spec fn protocol_number(self) -> i32 {
        match self {
            StatusCode::InvalidArgument => 3,
            StatusCode::FailedPrecondition => 9,
            StatusCode::Unimplemented => 12,
            StatusCode::Internal => 13,
            StatusCode::Unavailable => 14,
        }
    }

    /// The code's number in the gRPC protocol.
    pub fn number(&self) -> (n: i32)
        ensures
            n == self.protocol_number(),
    {
        match self {
            StatusCode::InvalidArgument => 3,
            StatusCode::FailedPrecondition => 9,
            StatusCode::Unimplemented => 12,
            StatusCode::Internal => 13,
            StatusCode::Unavailable => 14,
        }
    }
}

/// A gRPC status: a code and a message for the caller.
#[derive(Clone, Debug, PartialEq, Eq)]
pub struct GatewayStatus {
    pub code: StatusCode,
    pub message: String,
}

impl GatewayStatus {
    /// A status with the given code and message.
    pub fn new(code: StatusCode, message: &str) -> (st: GatewayStatus)
        ensures
            st.code == code,
            st.message@ == message@,
    {
        GatewayStatus { code, message: message.to_owned() }
    }
}

/// What can go wrong when the gateway proxies a request to a speech engine.
#[derive(Clone, Debug, PartialEq, Eq)]
pub enum GatewayError {
    /// The engine could not be reached.
    UpstreamUnavailable(String),
    /// The engine answered with an error.
    UpstreamError(String),
    /// The engine's audio could not be read.
    UpstreamReadError(String),
    /// Voice cloning was asked for and no cloning engine is configured.
    CloningNotConfigured,
}

impl GatewayError {
    /// The error's text, as shown to operators.
    pub open spec fn text(self) -> Seq<char> {
        match self {
            GatewayError::UpstreamUnavailable(m) => "Uzman TTS servisine ulaşılamıyor: "@ + m@,
            GatewayError::UpstreamError(m) => "Uzman TTS servisi hata döndürdü: "@ + m@,
            GatewayError::UpstreamReadError(m) => "Uzman TTS servisinden ses verisi okunamadı: "@
                + m@,
            GatewayError::CloningNotConfigured => "Bu sunucu ses klonlama için yapılandırılmamıştır."@,
        }
    }

    /// The status code the error is answered with.
    pub open spec fn answer_code(self) -> StatusCode {
        match self {
            GatewayError::UpstreamUnavailable(_) => StatusCode::Unavailable,
            GatewayError::CloningNotConfigured => StatusCode::FailedPrecondition,
            _ => StatusCode::Internal,
        }
    }

    /// The status message the error is answered with: the bare reason when
    /// the engine is unreachable, the full error text otherwise.
    pub open spec fn answer_message(self) -> Seq<char> {
        match self {
            GatewayError::UpstreamUnavailable(m) => m@,
            _ => self.text(),
        }
    }

    /// The error's text.
    pub fn message(&self) -> (s: String)
        ensures
            s@ == self.text(),
    {
        match self {
            GatewayError::UpstreamUnavailable(m) => {
                let mut s = "Uzman TTS servisine ulaşılamıyor: ".to_owned();
                s.append(m.as_str());
                s
            },
            GatewayError::UpstreamError(m) => {
                let mut s = "Uzman TTS servisi hata döndürdü: ".to_owned();
                s.append(m.as_str());
                s
            },
            GatewayError::UpstreamReadError(m) => {
                let mut s = "Uzman TTS servisinden ses verisi okunamadı: ".to_owned();
                s.append(m.as_str());
                s
            },
            GatewayError::CloningNotConfigured => {
                "Bu sunucu ses klonlama için yapılandırılmamıştır.".to_owned()
            },
        }
    }

    /// The gRPC status the error is answered with.
    pub fn to_status(&self) -> (st: GatewayStatus)
        ensures
            st.code == self.answer_code(),
            st.message@ == self.answer_message(),
    {
        match self {
            GatewayError::UpstreamUnavailable(m) => GatewayStatus {
                code: StatusCode::Unavailable,
                message: m.clone(),
            },
            GatewayError::CloningNotConfigured => GatewayStatus {
                code: StatusCode::FailedPrecondition,
                message: self.message(),
            },
            _ => GatewayStatus { code: StatusCode::Internal, message: self.message() },
        }
    }
}

} // verus!
