//! The structured log line format (SUTS v4): severity names, and the
//! collection of an event's fields into the line's event name, message,
//! correlation ids and attributes.
use vstd::prelude::*;
use crate::text::{same_text, text_or, trim_char, trim_matches_char};

verus! {

/// A severity level of the tracing framework.
#[derive(Clone, Copy, Debug, PartialEq, Eq, Structural)]
pub enum LogLevel {
    Trace,
    Debug,
    Info,
    Warn,
    Error,
}

/// The severity written into the log line for a level; trace events are
/// written as debug.
pub open spec fn severity_label(level: LogLevel) -> Seq<char> {
    match level {
        LogLevel::Trace => "DEBUG"@,
        LogLevel::Debug => "DEBUG"@,
        LogLevel::Info => "INFO"@,
        LogLevel::Warn => "WARN"@,
        LogLevel::Error => "ERROR"@,
    }
}

/// The severity written into the log line for a level.
pub fn severity(level: LogLevel) -> (s: &'static str)
    ensures
        s@ == severity_label(level),
{
    match level {
        LogLevel::Trace => "DEBUG",
        LogLevel::Debug => "DEBUG",
        LogLevel::Info => "INFO",
        LogLevel::Warn => "WARN",
        LogLevel::Error => "ERROR",
    }
}

/// The service identity written into every log line.
#[derive(Clone, Debug, PartialEq, Eq)]
pub struct SutsV4Formatter {
    pub service_name: String,
    pub service_version: String,
    pub service_env: String,
}

impl SutsV4Formatter {
    /// The identity of the gateway at `version` in environment `env`.
    pub fn for_gateway(version: &str, env: &str) -> (f: SutsV4Formatter)
        ensures
            f.service_name@ == "tts-gateway-service"@,
            f.service_version@ == version@,
            f.service_env@ == env@,
    {
        SutsV4Formatter {
            service_name: "tts-gateway-service".to_owned(),
            service_version: version.to_owned(),
            service_env: env.to_owned(),
        }
    }
}

/// The value of a log field. `N` is the kind of number that is carried
/// through as it came (the fractional numbers of the tracing framework).
#[derive(Clone, Debug, PartialEq)]
pub enum FieldValue<N> {
    Text(String),
    Int(i64),
    UInt(u64),
    Bool(bool),
    Number(N),
}

/// A log field's value, with texts as character sequences.
pub enum FieldView<N> {
    Text(Seq<char>),
    Int(i64),
    UInt(u64),
    Bool(bool),
    Number(N),
}

impl<N> View for FieldValue<N> {
    type V = FieldView<N>;

    open spec fn view(&self) -> FieldView<N> {
        match self {
            FieldValue::Text(s) => FieldView::Text(s@),
            FieldValue::Int(i) => FieldView::Int(*i),
            FieldValue::UInt(u) => FieldView::UInt(*u),
            FieldValue::Bool(b) => FieldView::Bool(*b),
            FieldValue::Number(n) => FieldView::Number(*n),
        }
    }
}

/// The map that a list of key-value pairs spells, later pairs winning.
pub open spec fn pairs_map<N>(s: Seq<(String, FieldValue<N>)>) -> Map<Seq<char>, FieldView<N>>
    decreases s.len(),
{
    if s.len() == 0 {
        Map::empty()
    } else {
        pairs_map(s.subrange(0, s.len() - 1)).insert(s[s.len() - 1].0@, s[s.len() - 1].1@)
    }
}

/// No key occurs twice.
pub open spec fn keys_unique<N>(s: Seq<(String, FieldValue<N>)>) -> bool {
    forall|i: int, j: int| 0 <= i < j < s.len() ==> #[trigger] s[i].0@ != #[trigger] s[j].0@
}

/// The value under `k`, if any.
pub open spec fn lookup<N>(m: Map<Seq<char>, FieldView<N>>, k: Seq<char>) -> Option<FieldView<N>> {
    if m.dom().contains(k) {
        Some(m[k])
    } else {
        None
    }
}

proof fn lemma_pairs_map_entries<N>(s: Seq<(String, FieldValue<N>)>)
    requires
        keys_unique(s),
    ensures
        forall|k: Seq<char>|
            #[trigger] pairs_map(s).dom().contains(k) <==> exists|i: int|
                0 <= i < s.len() && #[trigger] s[i].0@ == k,
        forall|i: int| 0 <= i < s.len() ==> #[trigger] pairs_map(s)[s[i].0@] == s[i].1@,
    decreases s.len(),
{
    if s.len() > 0 {
        let t = s.subrange(0, s.len() - 1);
        assert(keys_unique(t)) by {
            assert forall|i: int, j: int| 0 <= i < j < t.len() implies #[trigger] t[i].0@
                != #[trigger] t[j].0@ by {
                assert(t[i] == s[i] && t[j] == s[j]);
            }
        }
        lemma_pairs_map_entries(t);
        let last = s[s.len() - 1];
        assert(pairs_map(s) == pairs_map(t).insert(last.0@, last.1@));
        assert forall|k: Seq<char>| #[trigger] pairs_map(s).dom().contains(k) <==> exists|i: int|
            0 <= i < s.len() && #[trigger] s[i].0@ == k by {
            if pairs_map(s).dom().contains(k) {
                if k == last.0@ {
                    assert(s[s.len() - 1].0@ == k);
                } else {
                    assert(pairs_map(t).dom().contains(k));
                    let i = choose|i: int| 0 <= i < t.len() && #[trigger] t[i].0@ == k;
                    assert(s[i] == t[i]);
                }
            }
            if exists|i: int| 0 <= i < s.len() && #[trigger] s[i].0@ == k {
                let i = choose|i: int| 0 <= i < s.len() && #[trigger] s[i].0@ == k;
                if i < s.len() - 1 {
                    assert(t[i] == s[i]);
                }
            }
        }
        assert forall|i: int| 0 <= i < s.len() implies #[trigger] pairs_map(s)[s[i].0@]
            == s[i].1@ by {
            if i < s.len() - 1 {
                assert(t[i] == s[i]);
                assert(s[i].0@ != s[s.len() - 1].0@);
            }
        }
    }
}

/// A map of log fields, each key held once; setting a key again replaces
/// its value.
pub struct FieldMap<N> {
    pairs: Vec<(String, FieldValue<N>)>,
}

impl<N> FieldMap<N> {
    #[verifier::type_invariant]
    spec fn unique_keys(self) -> bool {
        keys_unique(self.pairs@)
    }

    /// The fields, by key.
    pub closed spec fn entries(self) -> Map<Seq<char>, FieldView<N>> {
        pairs_map(self.pairs@)
    }

    /// An empty map.
    pub fn new() -> (m: FieldMap<N>)
        ensures
            m.entries() == Map::<Seq<char>, FieldView<N>>::empty(),
    {
        FieldMap { pairs: Vec::new() }
    }

    /// The position of `key`, if it is held.
    fn position(pairs: &Vec<(String, FieldValue<N>)>, key: &String) -> (r: Option<usize>)
        ensures
            match r {
                Some(i) => i < pairs@.len() && pairs@[i as int].0@ == key@,
                None => forall|i: int| 0 <= i < pairs@.len() ==> #[trigger] pairs@[i].0@ != key@,
            },
    {
        let mut i: usize = 0;
        while i < pairs.len()
            invariant
                i <= pairs@.len(),
                forall|j: int| 0 <= j < i ==> #[trigger] pairs@[j].0@ != key@,
            decreases pairs.len() - i,
        {
            if pairs[i].0 == *key {
                return Some(i);
            }
            i += 1;
        }
        None
    }

    /// Sets the field `key` to `value`, replacing what it held.
    pub fn insert(&mut self, key: String, value: FieldValue<N>)
        ensures
            final(self).entries() == old(self).entries().insert(key@, value@),
    {
        proof {
            use_type_invariant(&*self);
        }
        let mut pairs: Vec<(String, FieldValue<N>)> = Vec::new();
        std::mem::swap(&mut pairs, &mut self.pairs);
        let ghost before = pairs@;
        let ghost k = key@;
        let ghost v = value@;
        proof {
            lemma_pairs_map_entries(before);
        }
        match Self::position(&pairs, &key) {
            Some(i) => {
                pairs.set(i, (key, value));
                proof {
                    let after = pairs@;
                    assert(keys_unique(after)) by {
                        assert forall|a: int, b: int| 0 <= a < b < after.len() implies #[trigger] after[a].0@
                            != #[trigger] after[b].0@ by {
                            if a != i as int && b != i as int {
                                assert(after[a] == before[a] && after[b] == before[b]);
                            } else if a == i as int {
                                assert(after[b] == before[b]);
                                assert(before[a].0@ != before[b].0@);
                            } else {
                                assert(after[a] == before[a]);
                                assert(before[a].0@ != before[b].0@);
                            }
                        }
                    }
                    lemma_pairs_map_entries(after);
                    assert(pairs_map(after) =~= pairs_map(before).insert(k, v)) by {
                        assert forall|q: Seq<char>| #[trigger] pairs_map(after).dom().contains(q)
                            <==> pairs_map(before).insert(k, v).dom().contains(q) by {
                            if pairs_map(after).dom().contains(q) {
                                let j = choose|j: int| 0 <= j < after.len() && #[trigger] after[j].0@ == q;
                                if j != i as int {
                                    assert(after[j] == before[j]);
                                }
                            }
                            if pairs_map(before).dom().contains(q) {
                                let j = choose|j: int| 0 <= j < before.len() && #[trigger] before[j].0@ == q;
                                if j != i as int {
                                    assert(after[j] == before[j]);
                                } else {
                                    assert(after[j].0@ == q);
                                }
                            }
                            if q == k {
                                assert(after[i as int].0@ == q);
                            }
                        }
                        assert forall|q: Seq<char>| #[trigger] pairs_map(after).dom().contains(q)
                            implies pairs_map(after)[q] == pairs_map(before).insert(k, v)[q] by {
                            let j = choose|j: int| 0 <= j < after.len() && #[trigger] after[j].0@ == q;
                            if j != i as int {
                                assert(after[j] == before[j]);
                            }
                        }
                    }
                }
            },
            None => {
                pairs.push((key, value));
                proof {
                    let after = pairs@;
                    assert(after.subrange(0, after.len() - 1) =~= before);
                    assert(keys_unique(after)) by {
                        assert forall|a: int, b: int| 0 <= a < b < after.len() implies #[trigger] after[a].0@
                            != #[trigger] after[b].0@ by {
                            assert(after[a] == before[a]);
                            if b < before.len() {
                                assert(after[b] == before[b]);
                            }
                        }
                    }
                }
            },
        }
        self.pairs = pairs;
    }

    /// Takes the field `key` out of the map, giving back what it held.
    pub fn remove(&mut self, key: &str) -> (r: Option<FieldValue<N>>)
        ensures
            match r {
                Some(v) => lookup(old(self).entries(), key@) == Some(v@),
                None => lookup(old(self).entries(), key@) is None,
            },
            final(self).entries() == old(self).entries().remove(key@),
    {
        proof {
            use_type_invariant(&*self);
        }
        let mut pairs: Vec<(String, FieldValue<N>)> = Vec::new();
        std::mem::swap(&mut pairs, &mut self.pairs);
        let ghost before = pairs@;
        proof {
            lemma_pairs_map_entries(before);
        }
        let owned_key = key.to_owned();
        let r = match Self::position(&pairs, &owned_key) {
            Some(i) => {
                let (_, v) = pairs.remove(i);
                proof {
                    let after = pairs@;
                    let k = key@;
                    assert(after =~= before.remove(i as int));
                    assert(keys_unique(after)) by {
                        assert forall|a: int, b: int| 0 <= a < b < after.len() implies #[trigger] after[a].0@
                            != #[trigger] after[b].0@ by {
                            let a0 = if a < i { a } else { a + 1 };
                            let b0 = if b < i { b } else { b + 1 };
                            assert(after[a] == before[a0] && after[b] == before[b0]);
                        }
                    }
                    lemma_pairs_map_entries(after);
                    assert(pairs_map(after) =~= pairs_map(before).remove(k)) by {
                        assert forall|q: Seq<char>| #[trigger] pairs_map(after).dom().contains(q)
                            <==> pairs_map(before).remove(k).dom().contains(q) by {
                            if pairs_map(after).dom().contains(q) {
                                let j = choose|j: int| 0 <= j < after.len() && #[trigger] after[j].0@ == q;
                                let j0 = if j < i { j } else { j + 1 };
                                assert(after[j] == before[j0]);
                                assert(j0 != i);
                            }
                            if pairs_map(before).remove(k).dom().contains(q) {
                                let j = choose|j: int| 0 <= j < before.len() && #[trigger] before[j].0@ == q;
                                assert(j != i);
                                let j1 = if j < i { j } else { j - 1 };
                                assert(after[j1] == before[j]);
                            }
                        }
                        assert forall|q: Seq<char>| #[trigger] pairs_map(after).dom().contains(q)
                            implies pairs_map(after)[q] == pairs_map(before).remove(k)[q] by {
                            let j = choose|j: int| 0 <= j < after.len() && #[trigger] after[j].0@ == q;
                            let j0 = if j < i { j } else { j + 1 };
                            assert(after[j] == before[j0]);
                        }
                    }
                }
                Some(v)
            },
            None => {
                proof {
                    assert(pairs_map(before).remove(key@) =~= pairs_map(before));
                }
                None
            },
        };
        self.pairs = pairs;
        r
    }

    /// The fields as key-value pairs, each key once.
    pub fn into_pairs(self) -> (v: Vec<(String, FieldValue<N>)>)
        ensures
            pairs_map(v@) == self.entries(),
            keys_unique(v@),
    {
        proof {
            use_type_invariant(&self);
        }
        self.pairs
    }
}

/// The parts of a log line that come from the event's fields.
pub struct LogRecord<N> {
    /// The `event` field, or `UNKNOWN_EVENT`.
    pub event: String,
    /// The `message` field, or empty.
    pub message: String,
    pub trace_id: Option<FieldValue<N>>,
    pub span_id: Option<FieldValue<N>>,
    pub tenant_id: Option<FieldValue<N>>,
    /// The other fields, each key once.
    pub attributes: Vec<(String, FieldValue<N>)>,
}

pub open spec fn value_of<N>(v: Option<FieldValue<N>>) -> Option<FieldView<N>> {
    match v {
        Some(f) => Some(f@),
        None => None,
    }
}

/// One log line, field by field: the schema version, the time, the
/// severity, the tenant id, the service identity and host, the trace and span
/// ids, the event name, the message and the other attributes.
pub struct LogLine<N> {
    pub schema_v: String,
    pub ts: String,
    pub severity: String,
    pub tenant_id: Option<FieldValue<N>>,
    pub service_name: String,
    pub service_version: String,
    pub service_env: String,
    pub host_name: String,
    pub trace_id: Option<FieldValue<N>>,
    pub span_id: Option<FieldValue<N>>,
    pub event: String,
    pub message: String,
    pub attributes: Vec<(String, FieldValue<N>)>,
}

impl SutsV4Formatter {
    /// The log line of an event at `level`, whose fields were collected into
    /// `record`, written at time `ts` on the host named `host_name`
    /// (`unknown` when the host has no name): schema version `1.0.0`, and
    /// this formatter's service identity.
    pub fn log_line<N>(
        &self,
        level: LogLevel,
        record: LogRecord<N>,
        host_name: &Option<String>,
        ts: String,
    ) -> (l: LogLine<N>)
        ensures
            l.schema_v@ == "1.0.0"@,
            l.ts == ts,
            l.severity@ == severity_label(level),
            l.service_name@ == self.service_name@,
            l.service_version@ == self.service_version@,
            l.service_env@ == self.service_env@,
            l.host_name@ == (match host_name {
                Some(h) => h@,
                None => "unknown"@,
            }),
            l.tenant_id == record.tenant_id,
            l.trace_id == record.trace_id,
            l.span_id == record.span_id,
            l.event == record.event,
            l.message == record.message,
            l.attributes == record.attributes,
    {
        LogLine {
            schema_v: "1.0.0".to_owned(),
            ts,
            severity: severity(level).to_owned(),
            tenant_id: record.tenant_id,
            service_name: self.service_name.clone(),
            service_version: self.service_version.clone(),
            service_env: self.service_env.clone(),
            host_name: text_or(host_name, "unknown"),
            trace_id: record.trace_id,
            span_id: record.span_id,
            event: record.event,
            message: record.message,
            attributes: record.attributes,
        }
    }
}

/// Collects an event's fields: `message` and `event` given as text are kept
/// apart; every other field goes into the attribute map, a later value for a
/// key replacing an earlier one.
pub struct SutsVisitor<N> {
    message: Option<String>,
    event: Option<String>,
    fields: FieldMap<N>,
}

impl<N> SutsVisitor<N> {
    /// The message collected so far.
    pub closed spec fn message_text(self) -> Option<Seq<char>> {
        match self.message {
            Some(m) => Some(m@),
            None => None,
        }
    }

    /// The event name collected so far.
    pub closed spec fn event_text(self) -> Option<Seq<char>> {
        match self.event {
            Some(e) => Some(e@),
            None => None,
        }
    }

    /// The attributes collected so far.
    pub closed spec fn fields(self) -> Map<Seq<char>, FieldView<N>> {
        self.fields.entries()
    }

    /// A visitor that has collected nothing.
    pub fn new() -> (v: SutsVisitor<N>)
        ensures
            v.message_text() is None,
            v.event_text() is None,
            v.fields() == Map::<Seq<char>, FieldView<N>>::empty(),
    {
        SutsVisitor { message: None, event: None, fields: FieldMap::new() }
    }

    /// Records a text field.
    pub fn record_str(&mut self, key: &str, value: &str)
        ensures
            key@ == "message"@ ==> final(self).message_text() == Some(value@)
                && final(self).event_text() == old(self).event_text() && final(self).fields()
                == old(self).fields(),
            key@ == "event"@ ==> final(self).event_text() == Some(value@)
                && final(self).message_text() == old(self).message_text() && final(self).fields()
                == old(self).fields(),
            key@ != "message"@ && key@ != "event"@ ==> final(self).fields() == old(
                self,
            ).fields().insert(key@, FieldView::Text(value@)) && final(self).message_text()
                == old(self).message_text() && final(self).event_text() == old(self).event_text(),
    {
        proof {
            reveal_strlit("message");
            reveal_strlit("event");
            assert("message"@ != "event"@) by {
                assert("message"@.len() != "event"@.len());
            }
        }
        if same_text(key, "message") {
            self.message = Some(value.to_owned());
        } else if same_text(key, "event") {
            self.event = Some(value.to_owned());
        } else {
            self.fields.insert(key.to_owned(), FieldValue::Text(value.to_owned()));
        }
    }

    /// Records a field given by its debug rendering, which is taken without
    /// the quotes at either end.
    pub fn record_debug(&mut self, key: &str, rendered: &str)
        ensures
            key@ == "message"@ ==> final(self).message_text() == Some(trim_char(rendered@, '"'))
                && final(self).event_text() == old(self).event_text() && final(self).fields()
                == old(self).fields(),
            key@ == "event"@ ==> final(self).event_text() == Some(trim_char(rendered@, '"'))
                && final(self).message_text() == old(self).message_text() && final(self).fields()
                == old(self).fields(),
            key@ != "message"@ && key@ != "event"@ ==> final(self).fields() == old(
                self,
            ).fields().insert(key@, FieldView::Text(trim_char(rendered@, '"')))
                && final(self).message_text() == old(self).message_text()
                && final(self).event_text() == old(self).event_text(),
    {
        let clean = trim_matches_char(rendered, '"');
        self.record_str(key, clean.as_str());
    }

    /// Records a field that is not text; its key is used as is, even
    /// `message` or `event`.
    pub fn record_value(&mut self, key: &str, value: FieldValue<N>)
        ensures
            final(self).fields() == old(self).fields().insert(key@, value@),
            final(self).message_text() == old(self).message_text(),
            final(self).event_text() == old(self).event_text(),
    {
        self.fields.insert(key.to_owned(), value);
    }

    /// The parts of the log line: the event name (`UNKNOWN_EVENT` when none
    /// was given), the message (empty when none was given), the trace, span
    /// and tenant ids taken out of the attributes, and the other attributes.
    pub fn finish(self) -> (r: LogRecord<N>)
        ensures
            r.event@ == (match self.event_text() {
                Some(e) => e,
                None => "UNKNOWN_EVENT"@,
            }),
            r.message@ == (match self.message_text() {
                Some(m) => m,
                None => Seq::<char>::empty(),
            }),
            value_of(r.trace_id) == lookup(self.fields(), "trace_id"@),
            value_of(r.span_id) == lookup(self.fields().remove("trace_id"@), "span_id"@),
            value_of(r.tenant_id) == lookup(
                self.fields().remove("trace_id"@).remove("span_id"@),
                "tenant_id"@,
            ),
            pairs_map(r.attributes@) == self.fields().remove("trace_id"@).remove(
                "span_id"@,
            ).remove("tenant_id"@),
            keys_unique(r.attributes@),
    {
        let SutsVisitor { message, event, fields } = self;
        let mut fields = fields;
        let trace_id = fields.remove("trace_id");
        let span_id = fields.remove("span_id");
        let tenant_id = fields.remove("tenant_id");
        let event = match event {
            Some(e) => e,
            None => "UNKNOWN_EVENT".to_owned(),
        };
        let message = match message {
            Some(m) => m,
            None => String::new(),
        };
        LogRecord { event, message, trace_id, span_id, tenant_id, attributes: fields.into_pairs() }
    }
}

/// The correlation ids are written on their own and never among a log
/// line's attributes: whatever fields an event carries, the attributes that
/// `SutsVisitor::finish` leaves hold no `trace_id`, `span_id` or `tenant_id`,
/// and every other field keeps its value.
pub proof fn lemma_attributes_exclude_correlation_ids<N>(fields: Map<Seq<char>, FieldView<N>>)
    ensures
        ({
            let attributes = fields.remove("trace_id"@).remove("span_id"@).remove("tenant_id"@);
            &&& !attributes.dom().contains("trace_id"@)
            &&& !attributes.dom().contains("span_id"@)
            &&& !attributes.dom().contains("tenant_id"@)
            &&& forall|k: Seq<char>|
                k != "trace_id"@ && k != "span_id"@ && k != "tenant_id"@ && #[trigger] fields.dom().contains(k)
                    ==> attributes.dom().contains(k) && attributes[k] == fields[k]
        }),
{
}

} // verus!
