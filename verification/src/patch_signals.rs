//! [`PatchSignals`] patches signals into the client's signal store.

use crate::consts::{
    EventType, DEFAULT_PATCH_SIGNALS_ONLY_IF_MISSING, DEFAULT_SSE_RETRY_DURATION,
    ONLY_IF_MISSING_DATALINE_LITERAL, SIGNALS_DATALINE_LITERAL,
};
use crate::duration::whole_millis;
use crate::text::{
    data_line, data_lines, flag_str, flag_text, lemma_data_lines_single, lemma_lines_single_line,
    lemma_payloads_concat, lemma_read_other_key, lemma_read_other_lines, lemma_read_own_key,
    lemma_read_own_lines, lines, make_data_line, payloads, pieces, single_line, split_lines,
    value_under, values_under, views,
};
use crate::wire::{text_read_back, wire_text, EventView};
use crate::{opt_view, DatastarEvent};
use core::time::Duration;
use vstd::prelude::*;
use vstd::std_specs::convert::FromSpecImpl;

verus! {

/// The data line that carries the only-if-missing flag, unless it has the
/// value that a client assumes.
pub open spec fn only_if_missing_lines(flag: bool) -> Seq<Seq<char>> {
    if flag != DEFAULT_PATCH_SIGNALS_ONLY_IF_MISSING {
        seq![data_line(ONLY_IF_MISSING_DATALINE_LITERAL@, flag_text(flag))]
    } else {
        Seq::empty()
    }
}

/// One data line for each line of the signals, in order.
pub open spec fn signals_lines(signals: Seq<char>) -> Seq<Seq<char>> {
    data_lines(SIGNALS_DATALINE_LITERAL@, lines(signals))
}

/// The compact JSON text that `serde_json` writes for a JSON value, or `None`
/// where its serializer fails.
pub uninterp spec fn compact_text(value: serde_json::Value) -> Option<Seq<char>>;

/// `serde_json::to_string` on a JSON value: the value as compact JSON text,
/// or `None` where the serializer fails. The text is a function of the value
/// alone.
#[verifier::external_body]
fn compact_json(value: &serde_json::Value) -> (text: Option<String>)
    ensures
        opt_view(text) == compact_text(*value),
{
    match serde_json::to_string(value) {
        Ok(text) => Some(text),
        Err(_) => None,
    }
}

/// The signals of a patch that may be supplied as text, in serialized form,
/// or both: the text where there is one, else the serialized form, else
/// nothing.
pub open spec fn signals_text_of(raw: Option<Seq<char>>, serialized: Option<Seq<char>>) -> Seq<
    char,
> {
    match raw {
        Some(text) => text,
        None => match serialized {
            Some(text) => text,
            None => Seq::empty(),
        },
    }
}

/// Chooses the signals of a patch from what was supplied: text is taken as
/// it is and wins over a serialized value, which is then ignored.
pub fn signals_text(raw: Option<String>, serialized: Option<String>) -> (text: String)
    ensures
        text@ == signals_text_of(opt_view(raw), opt_view(serialized)),
{
    match raw {
        Some(text) => text,
        None => match serialized {
            Some(text) => text,
            None => String::new(),
        },
    }
}

/// What a client takes from the data lines of an event that patches
/// signals, reading each line by the key it begins with.
pub struct SignalsRead {
    pub only_if_missing: bool,
    pub signals: Seq<Seq<char>>,
}

/// Reads the data lines of an event that patches signals. A key without a
/// line stands for what a client assumes.
pub open spec fn read_signals_patch(data: Seq<Seq<char>>) -> SignalsRead {
    SignalsRead {
        only_if_missing: match value_under(data, ONLY_IF_MISSING_DATALINE_LITERAL@) {
            Some(text) => text == flag_text(true),
            None => DEFAULT_PATCH_SIGNALS_ONLY_IF_MISSING,
        },
        signals: values_under(data, SIGNALS_DATALINE_LITERAL@),
    }
}

/// [`PatchSignals`] patches signals into the client's signal store.
#[derive(Debug, Clone, PartialEq, Eq, Hash)]
pub struct PatchSignals {
    /// An id by which a client that reconnects can ask for the events it missed.
    pub id: Option<String>,
    /// How long a client waits before it reconnects after the connection is lost.
    pub retry: Duration,
    /// The signals to patch, as a JavaScript object or JSON text. The text is
    /// sent as it is given.
    pub signals: String,
    /// Whether only those signals are patched that the client does not have yet.
    pub only_if_missing: bool,
}

impl PatchSignals {
    /// The data lines of the event that this patch becomes: the
    /// only-if-missing flag, only where it is not what a client assumes, then
    /// the signals line by line.
    pub open spec fn data(&self) -> Seq<Seq<char>> {
        only_if_missing_lines(self.only_if_missing) + signals_lines(self.signals@)
    }

    /// The event that this patch becomes when it is sent under the replay id `id`.
    pub open spec fn event_with(&self, id: Option<Seq<char>>) -> EventView {
        EventView {
            event: EventType::PatchSignals,
            id,
            retry: whole_millis(self.retry),
            data: self.data(),
        }
    }

    /// The event that this patch becomes.
    pub open spec fn event(&self) -> EventView {
        self.event_with(opt_view(self.id))
    }

    /// A patch is well formed when its replay id holds no line feed. The
    /// signals may hold any number of them.
    pub open spec fn wf(&self) -> bool {
        self.id matches Some(id) ==> single_line(id@)
    }

    /// A well-formed patch becomes a well-formed event: the signals are
    /// split at their line feeds, so no data line holds one.
    pub proof fn event_is_well_formed(&self)
        requires
            self.wf(),
        ensures
            self.event().wf(),
    {
        reveal_strlit("onlyIfMissing");
        reveal_strlit("signals");
        reveal_strlit("true");
        reveal_strlit("false");
        lemma_lines_single_line(self.signals@);
        lemma_data_lines_single(SIGNALS_DATALINE_LITERAL@, lines(self.signals@));
        let head = only_if_missing_lines(self.only_if_missing);
        let tail = signals_lines(self.signals@);
        let data = self.data();
        assert forall|i: int| 0 <= i < data.len() implies single_line(#[trigger] data[i]) by {
            if i < head.len() {
                assert(data[i] == head[i]);
            } else {
                assert(data[i] == tail[i - head.len()]);
            }
        }
    }

    /// A patch of the given signals, with everything else as a client assumes it.
    pub fn new(signals: &str) -> (patch: Self)
        ensures
            patch.id is None,
            whole_millis(patch.retry) == DEFAULT_SSE_RETRY_DURATION,
            patch.signals@ == signals@,
            patch.only_if_missing == DEFAULT_PATCH_SIGNALS_ONLY_IF_MISSING,
            patch.wf(),
    {
        PatchSignals {
            id: None,
            retry: Duration::from_millis(DEFAULT_SSE_RETRY_DURATION),
            signals: signals.to_owned(),
            only_if_missing: DEFAULT_PATCH_SIGNALS_ONLY_IF_MISSING,
        }
    }

    /// A patch of signals that are supplied as text, as a JSON value, or
    /// both. Text is sent as it is and wins over the value; a value alone is
    /// sent as compact JSON; with neither, or with a value that cannot be
    /// serialized, the signals are empty.
    pub fn from_sources(raw: Option<String>, structured: Option<&serde_json::Value>) -> (patch:
        Self)
        ensures
            patch.id is None,
            whole_millis(patch.retry) == DEFAULT_SSE_RETRY_DURATION,
            patch.only_if_missing == DEFAULT_PATCH_SIGNALS_ONLY_IF_MISSING,
            patch.signals@ == signals_text_of(
                opt_view(raw),
                match structured {
                    Some(value) => compact_text(*value),
                    None => None,
                },
            ),
            patch.wf(),
    {
        let serialized = match (&raw, structured) {
            (None, Some(value)) => compact_json(value),
            _ => None,
        };
        PatchSignals {
            id: None,
            retry: Duration::from_millis(DEFAULT_SSE_RETRY_DURATION),
            signals: signals_text(raw, serialized),
            only_if_missing: DEFAULT_PATCH_SIGNALS_ONLY_IF_MISSING,
        }
    }

    /// The same patch under the replay id `id`.
    pub fn id(self, id: &str) -> (patch: Self)
        ensures
            opt_view(patch.id) == Some(id@),
            patch.retry == self.retry,
            patch.signals == self.signals,
            patch.only_if_missing == self.only_if_missing,
    {
        PatchSignals { id: Some(id.to_owned()), ..self }
    }

    /// The same patch with the retry interval `retry`.
    pub fn retry(self, retry: Duration) -> (patch: Self)
        ensures
            patch.id == self.id,
            patch.retry == retry,
            patch.signals == self.signals,
            patch.only_if_missing == self.only_if_missing,
    {
        PatchSignals { retry, ..self }
    }

    /// The same patch, applied only to signals that the client does not have
    /// yet, or to all.
    pub fn only_if_missing(self, only_if_missing: bool) -> (patch: Self)
        ensures
            patch.id == self.id,
            patch.retry == self.retry,
            patch.signals == self.signals,
            patch.only_if_missing == only_if_missing,
    {
        PatchSignals { only_if_missing, ..self }
    }

    /// Turns this patch into the event that is sent for it.
    pub fn into_datastar_event(self) -> (ev: DatastarEvent)
        ensures
            ev@ == self.event(),
            ev.retry == self.retry,
            self.wf() ==> ev.wf(),
    {
        proof {
            if self.wf() {
                self.event_is_well_formed();
            }
        }
        let mut patch = self;
        let id = patch.id.take();
        patch.convert_to_datastar_event_inner(id)
    }

    /// The event that is sent for this patch.
    pub fn as_datastar_event(&self) -> (ev: DatastarEvent)
        ensures
            ev@ == self.event(),
            ev.retry == self.retry,
            self.wf() ==> ev.wf(),
    {
        proof {
            if self.wf() {
                self.event_is_well_formed();
            }
        }
        self.convert_to_datastar_event_inner(self.id.clone())
    }

    fn convert_to_datastar_event_inner(&self, id: Option<String>) -> (ev: DatastarEvent)
        ensures
            ev@ == self.event_with(opt_view(id)),
            ev.retry == self.retry,
    {
        let mut data: Vec<String> = Vec::new();
        if self.only_if_missing != DEFAULT_PATCH_SIGNALS_ONLY_IF_MISSING {
            data.push(
                make_data_line(ONLY_IF_MISSING_DATALINE_LITERAL, flag_str(self.only_if_missing)),
            );
        }
        let ghost head = only_if_missing_lines(self.only_if_missing);
        assert(views(data@) =~= head);
        let signals = split_lines(self.signals.as_str());
        let n = signals.len();
        let mut i: usize = 0;
        while i < n
            invariant
                i <= n,
                n == signals.len(),
                views(signals@) == lines(self.signals@),
                views(data@) == head + data_lines(
                    SIGNALS_DATALINE_LITERAL@,
                    lines(self.signals@).take(i as int),
                ),
            decreases n - i,
        {
            let ghost before = views(data@);
            let line = make_data_line(SIGNALS_DATALINE_LITERAL, signals[i].as_str());
            let ghost added = line@;
            data.push(line);
            proof {
                assert(views(signals@)[i as int] == signals[i as int]@);
                assert(views(data@) =~= before.push(added));
                assert(views(data@) =~= head + data_lines(
                    SIGNALS_DATALINE_LITERAL@,
                    lines(self.signals@).take(i + 1),
                ));
            }
            i += 1;
        }
        assert(lines(self.signals@).take(n as int) =~= lines(self.signals@));
        DatastarEvent { event: EventType::PatchSignals, id, retry: self.retry, data }
    }
}

impl From<PatchSignals> for DatastarEvent {
    /// Turns a patch into the event that is sent for it.
    fn from(val: PatchSignals) -> (ev: DatastarEvent)
        ensures
            ev@ == val.event(),
            ev.retry == val.retry,
            val.wf() ==> ev.wf(),
    {
        val.into_datastar_event()
    }
}

// The event is pinned by the clauses of `from`: no spec expression can make
// the strings that an event holds.
impl FromSpecImpl<PatchSignals> for DatastarEvent {
    open spec fn obeys_from_spec() -> bool {
        false
    }

    open spec fn from_spec(val: PatchSignals) -> DatastarEvent {
        arbitrary()
    }
}

impl From<&PatchSignals> for DatastarEvent {
    /// The event that is sent for a patch.
    fn from(val: &PatchSignals) -> (ev: DatastarEvent)
        ensures
            ev@ == val.event(),
            ev.retry == val.retry,
            val.wf() ==> ev.wf(),
    {
        val.as_datastar_event()
    }
}

// The event is pinned by the clauses of `from`: no spec expression can make
// the strings that an event holds.
impl FromSpecImpl<&PatchSignals> for DatastarEvent {
    open spec fn obeys_from_spec() -> bool {
        false
    }

    open spec fn from_spec(val: &PatchSignals) -> DatastarEvent {
        arbitrary()
    }
}

/// Written to the wire and read back, a well-formed patch is recovered: the
/// data lines of the text, read by their keys, give the only-if-missing flag
/// and the lines of the signals of the patch.
pub proof fn signals_round_trip(patch: PatchSignals)
    requires
        patch.wf(),
    ensures
        read_signals_patch(payloads(pieces(wire_text(patch.event())), "data: "@)) == (SignalsRead {
            only_if_missing: patch.only_if_missing,
            signals: lines(patch.signals@),
        }),
{
    patch.event_is_well_formed();
    text_read_back(patch.event());
    reveal_strlit("onlyIfMissing");
    reveal_strlit("signals");
    let o = ONLY_IF_MISSING_DATALINE_LITERAL@;
    let s = SIGNALS_DATALINE_LITERAL@;
    let a = only_if_missing_lines(patch.only_if_missing);
    let b = signals_lines(patch.signals@);
    let none = Seq::<Seq<char>>::empty();
    lemma_payloads_concat(a, b, o.push(' '));
    lemma_payloads_concat(a, b, s.push(' '));
    assert(values_under(none, o) == none);
    assert(values_under(none, s) == none);
    if patch.only_if_missing {
        lemma_read_own_key(o, flag_text(true));
        lemma_read_other_key(o, flag_text(true), s);
    }
    lemma_read_own_lines(s, lines(patch.signals@));
    lemma_read_other_lines(s, lines(patch.signals@), o);
    assert(values_under(patch.data(), o) =~= if patch.only_if_missing {
        seq![flag_text(true)]
    } else {
        Seq::empty()
    });
    assert(values_under(patch.data(), s) =~= lines(patch.signals@));
}

} // verus!
