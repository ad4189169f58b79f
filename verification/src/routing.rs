//! Which speech engine a request goes to: `mms:` selectors go to MMS, every
//! other selector to Coqui.
use vstd::prelude::*;
use crate::text::{is_prefix_of, starts_with};

verus! {

/// A speech synthesis engine behind the gateway.
#[derive(Clone, Copy, Debug, PartialEq, Eq, Structural)]
pub enum Engine {
    Coqui,
    Mms,
}

impl Engine {
    /// The engine's name, as reported in `provider_used`.
    pub open spec fn label(self) -> Seq<char> {
        match self {
            Engine::Coqui => "coqui"@,
            Engine::Mms => "mms"@,
        }
    }

    /// The engine's name, as reported in `provider_used`.
    pub fn name(&self) -> (s: &'static str)
        ensures
            s@ == self.label(),
    {
        match self {
            Engine::Coqui => "coqui",
            Engine::Mms => "mms",
        }
    }
}

/// The engine a voice selector is routed to: `mms:` names MMS; `coqui:` and
/// every other selector, unknown ones included, go to Coqui.
pub open spec fn routed_engine(voice_id: Seq<char>) -> Engine {
    if is_prefix_of("mms:"@, voice_id) {
        Engine::Mms
    } else {
        Engine::Coqui
    }
}

/// The engine a voice selector is routed to.
pub fn route_voice(voice_id: &str) -> (e: Engine)
    ensures
        e == routed_engine(voice_id@),
        e == Engine::Mms <==> (voice_id@.len() >= 4 && voice_id@[0] == 'm' && voice_id@[1] == 'm'
            && voice_id@[2] == 's' && voice_id@[3] == ':'),
{
    proof {
        reveal_strlit("mms:");
        let v = voice_id@;
        if v.len() >= 4 {
            let sub = v.subrange(0, 4);
            assert(sub[0] == v[0] && sub[1] == v[1] && sub[2] == v[2] && sub[3] == v[3]);
            if v[0] == 'm' && v[1] == 'm' && v[2] == 's' && v[3] == ':' {
                assert(sub =~= "mms:"@);
            }
        }
    }
    if starts_with(voice_id, "mms:") {
        Engine::Mms
    } else {
        Engine::Coqui
    }
}

/// Every selector that begins with `mms:` (whatever follows, nothing
/// included) is routed to MMS, and every selector that does not is routed to
/// Coqui.
pub proof fn lemma_mms_prefix_routes_to_mms(rest: Seq<char>, other: Seq<char>)
    requires
        !(other.len() >= 4 && other[0] == 'm' && other[1] == 'm' && other[2] == 's' && other[3]
            == ':'),
    ensures
        routed_engine(seq!['m', 'm', 's', ':'] + rest) == Engine::Mms,
        routed_engine(other) == Engine::Coqui,
{
    reveal_strlit("mms:");
    let v = seq!['m', 'm', 's', ':'] + rest;
    assert(v.subrange(0, 4) =~= "mms:"@);
    if other.len() >= 4 {
        assert(other.subrange(0, 4)[0] == other[0]);
        assert(other.subrange(0, 4)[1] == other[1]);
        assert(other.subrange(0, 4)[2] == other[2]);
        assert(other.subrange(0, 4)[3] == other[3]);
    }
}

} // verus!
