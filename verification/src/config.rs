//! The gateway's settings: where each one comes from, the defaults, and the
//! reading of port numbers.
use vstd::prelude::*;
use crate::text::{decimal, is_digit, lemma_decimal_digits, parsed_u16};

verus! {

/// The gateway's settings.
#[derive(Clone, Debug, PartialEq, Eq)]
pub struct AppConfig {
    pub env: String,
    pub rust_log: String,
    pub service_version: String,
    pub host: String,
    pub http_port: u16,
    pub grpc_port: u16,
    pub tts_coqui_service_url: String,
    pub tts_mms_service_url: String,
    /// The OmniVoice engine's address, when one is configured.
    pub tts_omnivoice_service_url: Option<String>,
    pub grpc_tls_ca_path: String,
    pub tts_gateway_service_cert_path: String,
    pub tts_gateway_service_key_path: String,
}

/// A port setting as a configuration source holds it.
#[derive(Clone, Debug, PartialEq, Eq)]
pub enum PortValue {
    /// A text, as the environment and the dedicated variables give every
    /// setting, and as a file gives a quoted one.
    Text(String),
    /// An integer, as a file gives a number and as the defaults are set.
    Integer(i128),
    /// A boolean.
    Boolean(bool),
}

/// A port setting found in the configuration sources.
#[derive(Clone, Debug, PartialEq, Eq)]
pub enum PortSetting {
    /// A value of a kind that this crate reads itself.
    Value(PortValue),
    /// A value of another kind (a fractional number, a list, a table, ...),
    /// given with the port that the `config` crate reads from it, or `None`
    /// where it reads none.
    Converted(Option<u16>),
}

/// The settings as found in the configuration sources (the `.env` file and
/// the environment): each one as text, the ports as their sources hold
/// them, or `None` where no source has the setting.
#[derive(Clone, Debug, PartialEq, Eq)]
pub struct RawConfig {
    pub env: Option<String>,
    pub rust_log: Option<String>,
    pub service_version: Option<String>,
    pub host: Option<String>,
    pub http_port: Option<PortSetting>,
    pub grpc_port: Option<PortSetting>,
    pub tts_coqui_service_url: Option<String>,
    pub tts_mms_service_url: Option<String>,
    pub tts_omnivoice_service_url: Option<String>,
    pub grpc_tls_ca_path: Option<String>,
    pub tts_gateway_service_cert_path: Option<String>,
    pub tts_gateway_service_key_path: Option<String>,
}

/// The dedicated environment variables that take precedence over every
/// other source.
#[derive(Clone, Debug, PartialEq, Eq)]
pub struct ConfigOverrides {
    /// `TTS_GATEWAY_SERVICE_LISTEN_ADDRESS`, for `host`.
    pub listen_address: Option<String>,
    /// `TTS_GATEWAY_SERVICE_HTTP_PORT`, for `http_port`.
    pub http_port: Option<String>,
    /// `TTS_GATEWAY_SERVICE_GRPC_PORT`, for `grpc_port`.
    pub grpc_port: Option<String>,
    /// `TTS_COQUI_SERVICE_URL`, for `tts_coqui_service_url`.
    pub coqui_url: Option<String>,
    /// `TTS_MMS_SERVICE_URL`, for `tts_mms_service_url`.
    pub mms_url: Option<String>,
}

/// Why the settings could not be formed.
#[derive(Clone, Debug, PartialEq, Eq)]
pub enum ConfigError {
    /// The setting `key` holds `setting`, which is not a port number.
    InvalidPort { key: String, setting: PortSetting },
}

/// `c` with an ASCII capital made small.
pub open spec fn ascii_lower(c: char) -> char {
    if 'A' <= c && c <= 'Z' {
        ((c as int) + 32) as char
    } else {
        c
    }
}

/// `s` with its ASCII capitals made small.
pub open spec fn ascii_lowered(s: Seq<char>) -> Seq<char> {
    s.map_values(|c: char| ascii_lower(c))
}

/// The port that the `config` crate reads from the text `s`: the words
/// `true`, `on`, `yes` (in any letter case) read as 1 and `false`, `off`,
/// `no` as 0; any other text is read as an unsigned decimal number, which
/// must fit in 16 bits.
pub open spec fn config_port_value(s: Seq<char>) -> Option<u16> {
    let l = ascii_lowered(s);
    if l == "true"@ || l == "on"@ || l == "yes"@ {
        Some(1u16)
    } else if l == "false"@ || l == "off"@ || l == "no"@ {
        Some(0u16)
    } else {
        parsed_u16(s)
    }
}

/// The port that the `config` crate reads from `v`: a text as
/// `config_port_value` says, an integer when it lies in 0..=65535, and a
/// boolean as 1 or 0.
pub open spec fn port_value_of(v: PortValue) -> Option<u16> {
    match v {
        PortValue::Text(t) => config_port_value(t@),
        PortValue::Integer(i) => if 0 <= i && i <= 65535 {
            Some(i as u16)
        } else {
            None
        },
        PortValue::Boolean(b) => if b {
            Some(1u16)
        } else {
            Some(0u16)
        },
    }
}

/// The port that a setting gives, or `None` where it gives none.
pub open spec fn port_of(s: PortSetting) -> Option<u16> {
    match s {
        PortSetting::Value(v) => port_value_of(v),
        PortSetting::Converted(r) => r,
    }
}

/// Reads a port from a value as the `config` crate does when it forms a
/// `u16` setting (`Value::try_deserialize::<u16>`).
///
/// The claim rests on `Value::into_uint` of config 0.14 and the conversion
/// of its `u64` to `u16`, which fails above 65535. A text value is
/// lowercased (`str::to_lowercase`) and compared with `true`, `on`, `yes`
/// (read as 1) and `false`, `off`, `no` (read as 0), and otherwise parsed
/// with `str::parse::<u64>`; no character outside ASCII lowercases to a
/// letter of those words, so the ASCII lowering of `config_port_value` is
/// exact. An integer is converted to `u64`, which fails below 0. A boolean
/// reads as 1 or 0.
#[verifier::external_body]
fn read_port(v: &PortValue) -> (r: Option<u16>)
    ensures
        r == port_value_of(*v),
{
    let kind = match v {
        PortValue::Text(t) => config::ValueKind::String(t.clone()),
        PortValue::Integer(i) => config::ValueKind::I128(*i),
        PortValue::Boolean(b) => config::ValueKind::Boolean(*b),
    };
    config::Value::new(None, kind).try_deserialize::<u16>().ok()
}

/// The first of `first` and `second` that is present, else `default`.
pub open spec fn chosen(first: Option<String>, second: Option<String>, default: Seq<char>) -> Seq<
    char,
> {
    match first {
        Some(v) => v@,
        None => match second {
            Some(v) => v@,
            None => default,
        },
    }
}

/// The port setting in force: the dedicated variable's text if present,
/// else the sources' value if present, else the integer `default`.
pub open spec fn chosen_port(over: Option<String>, raw: Option<PortSetting>, default: u16) -> PortSetting {
    match over {
        Some(t) => PortSetting::Value(PortValue::Text(t)),
        None => match raw {
            Some(s) => s,
            None => PortSetting::Value(PortValue::Integer(default as i128)),
        },
    }
}

pub open spec fn default_http_port() -> u16 {
    14010
}

pub open spec fn default_grpc_port() -> u16 {
    14011
}

/// The setting `key` could not be formed from `setting` as a port.
pub open spec fn is_invalid_port(e: ConfigError, key: Seq<char>, setting: PortSetting) -> bool {
    match e {
        ConfigError::InvalidPort { key: k, setting: s } => k@ == key && s == setting,
    }
}

/// The text of an optional setting.
pub open spec fn optional_text(o: Option<String>) -> Option<Seq<char>> {
    match o {
        Some(v) => Some(v@),
        None => None,
    }
}

/// The settings formed from `raw` under `over` satisfy what `resolve`
/// promises: every setting comes from its dedicated variable, else from the
/// sources, else from its default.
pub open spec fn resolved(c: AppConfig, raw: RawConfig, over: ConfigOverrides) -> bool {
    &&& c.env@ == chosen(None, raw.env, "production"@)
    &&& c.rust_log@ == chosen(None, raw.rust_log, "info,sentiric_tts_gateway=debug"@)
    &&& c.service_version@ == chosen(None, raw.service_version, "1.2.2"@)
    &&& c.host@ == chosen(over.listen_address, raw.host, "0.0.0.0"@)
    &&& port_of(chosen_port(over.http_port, raw.http_port, default_http_port())) == Some(c.http_port)
    &&& port_of(chosen_port(over.grpc_port, raw.grpc_port, default_grpc_port())) == Some(c.grpc_port)
    &&& c.tts_coqui_service_url@ == chosen(
        over.coqui_url,
        raw.tts_coqui_service_url,
        "https://tts-coqui-service:14031"@,
    )
    &&& c.tts_mms_service_url@ == chosen(
        over.mms_url,
        raw.tts_mms_service_url,
        "https://tts-mms-service:14061"@,
    )
    &&& optional_text(c.tts_omnivoice_service_url) == optional_text(raw.tts_omnivoice_service_url)
    &&& c.grpc_tls_ca_path@ == chosen(
        None,
        raw.grpc_tls_ca_path,
        "/certs/ca.crt"@,
    )
    &&& c.tts_gateway_service_cert_path@ == chosen(
        None,
        raw.tts_gateway_service_cert_path,
        "/sentiric-certificates/certs/tts-gateway-service.crt"@,
    )
    &&& c.tts_gateway_service_key_path@ == chosen(
        None,
        raw.tts_gateway_service_key_path,
        "/sentiric-certificates/certs/tts-gateway-service.key"@,
    )
}

/// The first present text of `first`, `second` and `default`.
fn choose_text(first: &Option<String>, second: &Option<String>, default: &str) -> (r: String)
    ensures
        r@ == chosen(*first, *second, default@),
{
    match first {
        Some(v) => v.clone(),
        None => match second {
            Some(v) => v.clone(),
            None => default.to_owned(),
        },
    }
}

/// The port setting in force, as `chosen_port` says.
fn choose_port(over: &Option<String>, raw: &Option<PortSetting>, default: u16) -> (r: PortSetting)
    ensures
        r == chosen_port(*over, *raw, default),
{
    match over {
        Some(t) => PortSetting::Value(PortValue::Text(t.clone())),
        None => match raw {
            Some(PortSetting::Value(PortValue::Text(t))) => PortSetting::Value(PortValue::Text(t.clone())),
            Some(PortSetting::Value(PortValue::Integer(i))) => PortSetting::Value(PortValue::Integer(*i)),
            Some(PortSetting::Value(PortValue::Boolean(b))) => PortSetting::Value(PortValue::Boolean(*b)),
            Some(PortSetting::Converted(r)) => PortSetting::Converted(*r),
            None => PortSetting::Value(PortValue::Integer(default as i128)),
        },
    }
}

/// A port setting, read as a port.
fn port_setting(key: &str, setting: PortSetting) -> (r: Result<u16, ConfigError>)
    ensures
        match r {
            Ok(p) => port_of(setting) == Some(p),
            Err(e) => port_of(setting) is None && is_invalid_port(e, key@, setting),
        },
{
    let read = match &setting {
        PortSetting::Value(v) => read_port(v),
        PortSetting::Converted(r) => *r,
    };
    match read {
        Some(p) => Ok(p),
        None => Err(ConfigError::InvalidPort { key: key.to_owned(), setting }),
    }
}

impl AppConfig {
    /// Forms the settings. Each setting is taken from its dedicated
    /// environment variable where it has one, else from the configuration
    /// sources, else from its default; the OmniVoice address, which has no
    /// default, is kept when a source gives it. The ports must read as port
    /// numbers, as the `config` crate reads them (the HTTP port is read
    /// first).
    pub fn resolve(raw: &RawConfig, over: &ConfigOverrides) -> (r: Result<AppConfig, ConfigError>)
        ensures
            match r {
                Ok(c) => resolved(c, *raw, *over),
                Err(_) => true,
            },
            r matches Ok(c) ==> (over.listen_address matches Some(u) ==> c.host@ == u@),
            r matches Ok(c) ==> (over.coqui_url matches Some(u) ==> c.tts_coqui_service_url@ == u@),
            r matches Ok(c) ==> (over.mms_url matches Some(u) ==> c.tts_mms_service_url@ == u@),
            r matches Ok(c) ==> (over.mms_url is None ==> (raw.tts_mms_service_url matches Some(u)
                ==> c.tts_mms_service_url@ == u@)),
            r matches Ok(c) ==> (over.coqui_url is None ==> (raw.tts_coqui_service_url matches Some(u)
                ==> c.tts_coqui_service_url@ == u@)),
            r matches Ok(c) ==> (over.http_port matches Some(t) ==> config_port_value(t@) == Some(
                c.http_port,
            )),
            r matches Ok(c) ==> (over.grpc_port matches Some(t) ==> config_port_value(t@) == Some(
                c.grpc_port,
            )),
            r matches Ok(c) ==> (over.http_port is None && raw.http_port is None ==> c.http_port
                == 14010),
            r matches Ok(c) ==> (over.grpc_port is None && raw.grpc_port is None ==> c.grpc_port
                == 14011),
            r matches Ok(c) ==> (over.mms_url is None && raw.tts_mms_service_url is None
                ==> c.tts_mms_service_url@ == "https://tts-mms-service:14061"@),
            r matches Ok(c) ==> (over.coqui_url is None && raw.tts_coqui_service_url is None
                ==> c.tts_coqui_service_url@ == "https://tts-coqui-service:14031"@),
            r matches Ok(c) ==> (over.listen_address is None ==> (raw.host matches Some(u) ==> c.host@
                == u@)),
            match r {
                Ok(c) => true,
                Err(e) => {
                    let http = chosen_port(over.http_port, raw.http_port, default_http_port());
                    let grpc = chosen_port(over.grpc_port, raw.grpc_port, default_grpc_port());
                    if port_of(http) is None {
                        is_invalid_port(e, "http_port"@, http)
                    } else {
                        port_of(grpc) is None && is_invalid_port(e, "grpc_port"@, grpc)
                    }
                },
            },
    {
        let http_setting = choose_port(&over.http_port, &raw.http_port, 14010);
        let http_port = match port_setting("http_port", http_setting) {
            Ok(p) => p,
            Err(e) => return Err(e),
        };
        let grpc_setting = choose_port(&over.grpc_port, &raw.grpc_port, 14011);
        let grpc_port = match port_setting("grpc_port", grpc_setting) {
            Ok(p) => p,
            Err(e) => return Err(e),
        };
        let tts_omnivoice_service_url = match &raw.tts_omnivoice_service_url {
            Some(u) => Some(u.clone()),
            None => None,
        };
        Ok(
            AppConfig {
                env: choose_text(&None, &raw.env, "production"),
                rust_log: choose_text(&None, &raw.rust_log, "info,sentiric_tts_gateway=debug"),
                service_version: choose_text(&None, &raw.service_version, "1.2.2"),
                host: choose_text(&over.listen_address, &raw.host, "0.0.0.0"),
                http_port,
                grpc_port,
                tts_coqui_service_url: choose_text(
                    &over.coqui_url,
                    &raw.tts_coqui_service_url,
                    "https://tts-coqui-service:14031",
                ),
                tts_mms_service_url: choose_text(
                    &over.mms_url,
                    &raw.tts_mms_service_url,
                    "https://tts-mms-service:14061",
                ),
                tts_omnivoice_service_url,
                grpc_tls_ca_path: choose_text(
                    &None,
                    &raw.grpc_tls_ca_path,
                    "/certs/ca.crt",
                ),
                tts_gateway_service_cert_path: choose_text(
                    &None,
                    &raw.tts_gateway_service_cert_path,
                    "/sentiric-certificates/certs/tts-gateway-service.crt",
                ),
                tts_gateway_service_key_path: choose_text(
                    &None,
                    &raw.tts_gateway_service_key_path,
                    "/sentiric-certificates/certs/tts-gateway-service.key",
                ),
            },
        )
    }
}

/// Reading back the decimal text of a port gives the port again: the port
/// that `App::metrics_address` and `App::grpc_address` write is the one the
/// settings read from that text.
pub proof fn lemma_port_text_round_trip(port: u16)
    ensures
        config_port_value(decimal(port as nat)) == Some(port),
{
    lemma_decimal_digits(port as nat);
    let d = decimal(port as nat);
    let l = ascii_lowered(d);
    assert(l[0] == d[0]);
    assert(is_digit(d[0]));
    reveal_strlit("true");
    reveal_strlit("on");
    reveal_strlit("yes");
    reveal_strlit("false");
    reveal_strlit("off");
    reveal_strlit("no");
    assert(l != "true"@ && l != "on"@ && l != "yes"@ && l != "false"@ && l != "off"@ && l != "no"@) by {
        assert("true"@[0] == 't' && "on"@[0] == 'o' && "yes"@[0] == 'y');
        assert("false"@[0] == 'f' && "off"@[0] == 'o' && "no"@[0] == 'n');
    }
}

/// The dedicated environment variables win over every other source: when
/// one is present, the setting it names holds its text (its port, for the
/// ports); when it is absent, a value found in the sources wins over the
/// default; and with neither, the default holds.
pub proof fn lemma_dedicated_variables_win(c: AppConfig, raw: RawConfig, over: ConfigOverrides)
    requires
        resolved(c, raw, over),
    ensures
        over.listen_address matches Some(u) ==> c.host@ == u@,
        over.coqui_url matches Some(u) ==> c.tts_coqui_service_url@ == u@,
        over.mms_url matches Some(u) ==> c.tts_mms_service_url@ == u@,
        over.http_port matches Some(t) ==> config_port_value(t@) == Some(c.http_port),
        over.grpc_port matches Some(t) ==> config_port_value(t@) == Some(c.grpc_port),
        over.listen_address is None ==> (raw.host matches Some(u) ==> c.host@ == u@),
        over.coqui_url is None ==> (raw.tts_coqui_service_url matches Some(u)
            ==> c.tts_coqui_service_url@ == u@),
        over.mms_url is None ==> (raw.tts_mms_service_url matches Some(u) ==> c.tts_mms_service_url@
            == u@),
        over.mms_url is None && raw.tts_mms_service_url is None ==> c.tts_mms_service_url@
            == "https://tts-mms-service:14061"@,
        over.coqui_url is None && raw.tts_coqui_service_url is None ==> c.tts_coqui_service_url@
            == "https://tts-coqui-service:14031"@,
        over.http_port is None && raw.http_port is None ==> c.http_port == 14010,
        over.grpc_port is None && raw.grpc_port is None ==> c.grpc_port == 14011,
{
}

} // verus!
