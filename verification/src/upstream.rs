//! What the gateway's engine clients decide: which engine addresses they
//! refuse, which tracing headers they forward, and the TLS name they expect.
use std::str::FromStr;
use vstd::prelude::*;
use crate::text::{is_prefix_of, starts_with};

verus! {

/// A plain-text address, which the gateway never connects to: engines are
/// reached over mutual TLS only.
pub open spec fn insecure_address(url: Seq<char>) -> bool {
    is_prefix_of("http://"@, url)
}

/// Whether `url` is a plain-text (`http://`) address.
pub fn is_insecure_url(url: &str) -> (r: bool)
    ensures
        r == insecure_address(url@),
{
    starts_with(url, "http://")
}

/// A character that a gRPC metadata value may hold: a tab, or any character
/// from the space on except DEL (every character beyond ASCII is encoded in
/// bytes from 128 on, which are allowed).
pub open spec fn metadata_char(c: char) -> bool {
    c == '\t' || (' ' <= c && c != '\u{7F}')
}

/// A text that gRPC metadata accepts as a value.
pub open spec fn valid_metadata_text(s: Seq<char>) -> bool {
    forall|i: int| 0 <= i < s.len() ==> metadata_char(#[trigger] s[i])
}

/// Whether tonic accepts `value` as a metadata value
/// (`MetadataValue::<Ascii>::from_str`).
///
/// The claim rests on tonic 0.12, whose `from_str` is `HeaderValue::from_str`
/// of http 1: it refuses a text exactly when one of its UTF-8 bytes is below
/// 32 and not a tab, or is 127.
#[verifier::external_body]
fn metadata_value_accepted(value: &str) -> (r: bool)
    ensures
        r == valid_metadata_text(value@),
{
    tonic::metadata::MetadataValue::<tonic::metadata::Ascii>::from_str(value).is_ok()
}

/// Why a client refuses a plain-text address.
pub fn insecure_url_violation() -> (s: &'static str)
    ensures
        s@ == "Architectural Violation: Insecure HTTP channels are strictly forbidden for gRPC communication. Use https:// and mTLS."@,
{
    "Architectural Violation: Insecure HTTP channels are strictly forbidden for gRPC communication. Use https:// and mTLS."
}

/// The server name that engine certificates are checked against.
pub fn upstream_tls_domain() -> (s: &'static str)
    ensures
        s@ == "sentiric.cloud"@,
{
    "sentiric.cloud"
}

/// Why the OmniVoice client refuses a plain-text address.
pub fn omnivoice_insecure_url_violation() -> (s: &'static str)
    ensures
        s@ == "[ARCH-COMPLIANCE] Insecure HTTP channels are forbidden. Use mTLS."@,
{
    "[ARCH-COMPLIANCE] Insecure HTTP channels are forbidden. Use mTLS."
}

/// The header that carries a value, when the value is present and is a
/// valid metadata value; an invalid value is left out, never an error.
pub open spec fn header_entry(name: Seq<char>, value: Option<String>) -> Seq<(Seq<char>, Seq<char>)> {
    match value {
        Some(v) => if valid_metadata_text(v@) {
            seq![(name, v@)]
        } else {
            Seq::empty()
        },
        None => Seq::empty(),
    }
}

/// The tracing headers forwarded to an engine, in this order: `x-trace-id`,
/// `x-span-id`, `x-tenant-id`, each only when its id is present and a valid
/// metadata value.
pub open spec fn tracing_headers(
    trace_id: Option<String>,
    span_id: Option<String>,
    tenant_id: Option<String>,
) -> Seq<(Seq<char>, Seq<char>)> {
    header_entry("x-trace-id"@, trace_id) + header_entry("x-span-id"@, span_id) + header_entry(
        "x-tenant-id"@,
        tenant_id,
    )
}

pub open spec fn header_views(h: Seq<(&'static str, String)>) -> Seq<(Seq<char>, Seq<char>)> {
    h.map_values(|e: (&'static str, String)| (e.0@, e.1@))
}

fn push_header(headers: &mut Vec<(&'static str, String)>, name: &'static str, value: &Option<String>)
    ensures
        header_views(final(headers)@) == header_views(old(headers)@) + header_entry(name@, *value),
{
    match value {
        Some(v) => if metadata_value_accepted(v.as_str()) {
            headers.push((name, v.clone()));
            proof {
                assert(header_views(final(headers)@) =~= header_views(old(headers)@) + header_entry(name@, *value));
            }
        } else {
            proof {
                assert(header_views(final(headers)@) =~= header_views(old(headers)@) + header_entry(name@, *value));
            }
        },
        None => {
            proof {
                assert(header_views(final(headers)@) =~= header_views(old(headers)@) + header_entry(name@, *value));
            }
        },
    }
}

/// The tracing headers to forward to an engine, as (name, value) pairs.
pub fn upstream_metadata(
    trace_id: &Option<String>,
    span_id: &Option<String>,
    tenant_id: &Option<String>,
) -> (h: Vec<(&'static str, String)>)
    ensures
        header_views(h@) == tracing_headers(*trace_id, *span_id, *tenant_id),
{
    let mut h: Vec<(&'static str, String)> = Vec::new();
    assert(header_views(h@) =~= Seq::<(Seq<char>, Seq<char>)>::empty());
    push_header(&mut h, "x-trace-id", trace_id);
    push_header(&mut h, "x-span-id", span_id);
    push_header(&mut h, "x-tenant-id", tenant_id);
    assert(Seq::<(Seq<char>, Seq<char>)>::empty() + header_entry("x-trace-id"@, *trace_id)
        =~= header_entry("x-trace-id"@, *trace_id));
    h
}

} // verus!
