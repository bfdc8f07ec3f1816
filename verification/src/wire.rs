//! The text of one event on the wire: its lines, in their fixed order, and
//! the blank line that ends it.

use crate::consts::{EventType, DEFAULT_SSE_RETRY_DURATION};
use crate::text::{
    decimal, lemma_decimal_single_line, lemma_payloads_concat, lemma_payloads_none,
    lemma_payloads_of_prefixed, lemma_pieces_concat, lemma_pieces_of_single_line,
    lemma_starts_with_differs, lemma_starts_with_own_prefix, payloads, pieces, prefixed,
    single_line, single_lines, starts_with,
};
use vstd::prelude::*;

verus! {

/// What an event holds: its kind, its replay id if it has one, its retry
/// interval in whole milliseconds, and its data lines in order.
pub struct EventView {
    pub event: EventType,
    pub id: Option<Seq<char>>,
    pub retry: nat,
    pub data: Seq<Seq<char>>,
}

impl EventView {
    /// An event is well formed when neither its replay id nor any of its data
    /// lines holds a line feed.
    pub open spec fn wf(self) -> bool {
        &&& self.id matches Some(id) ==> single_line(id)
        &&& single_lines(self.data)
    }
}

/// The `id` line of an event, if it has a replay id.
pub open spec fn id_lines(id: Option<Seq<char>>) -> Seq<Seq<char>> {
    match id {
        Some(id) => seq!["id: "@ + id],
        None => Seq::empty(),
    }
}

/// The `retry` line of an event, if its retry interval is not the default.
pub open spec fn retry_lines(retry: nat) -> Seq<Seq<char>> {
    if retry != DEFAULT_SSE_RETRY_DURATION {
        seq!["retry: "@ + decimal(retry)]
    } else {
        Seq::empty()
    }
}

/// The lines of an event, in the order in which they are written: the `event`
/// line, the `id` line, the `retry` line, then one `data` line for each data
/// line of the event.
pub open spec fn wire_lines(ev: EventView) -> Seq<Seq<char>> {
    seq!["event: "@ + ev.event.token()] + id_lines(ev.id) + retry_lines(ev.retry) + prefixed(
        "data: "@,
        ev.data,
    )
}

/// The members of `ls` one after the other, each followed by a line feed.
pub open spec fn terminated(ls: Seq<Seq<char>>) -> Seq<char>
    decreases ls.len(),
{
    if ls.len() == 0 {
        Seq::empty()
    } else {
        terminated(ls.drop_last()) + ls.last().push('\n')
    }
}

/// The text of an event on the wire: its lines, each ended by a line feed,
/// and one more line feed, which makes the blank line that ends the event.
pub open spec fn wire_text(ev: EventView) -> Seq<char> {
    terminated(wire_lines(ev)).push('\n')
}

/// Adding a line to `ls` adds that line and a line feed to the text.
pub proof fn lemma_terminated_push(ls: Seq<Seq<char>>, line: Seq<char>)
    ensures
        terminated(ls.push(line)) == terminated(ls) + line.push('\n'),
{
    assert(ls.push(line).drop_last() =~= ls);
}

/// The pieces of a text that begins with lines, each ended by a line feed,
/// are those lines and then the pieces of what follows them.
pub proof fn lemma_pieces_terminated(ls: Seq<Seq<char>>, rest: Seq<char>)
    requires
        single_lines(ls),
    ensures
        pieces(terminated(ls) + rest) == ls + pieces(rest),
    decreases ls.len(),
{
    if ls.len() == 0 {
        assert(terminated(ls) + rest =~= rest);
        assert(ls + pieces(rest) =~= pieces(rest));
    } else {
        let front = ls.drop_last();
        let line = ls.last();
        assert(single_lines(front)) by {
            assert forall|i: int| 0 <= i < front.len() implies single_line(#[trigger] front[i]) by {
                assert(front[i] == ls[i]);
            }
        }
        lemma_pieces_terminated(front, line.push('\n') + rest);
        assert(terminated(ls) + rest =~= terminated(front) + (line.push('\n') + rest));
        lemma_pieces_concat(line, rest);
        lemma_pieces_of_single_line(line);
        assert(front + (seq![line] + pieces(rest)) =~= ls + pieces(rest));
    }
}

/// The lines of a well-formed event hold no line feed.
pub proof fn lemma_wire_lines_single(ev: EventView)
    requires
        ev.wf(),
    ensures
        single_lines(wire_lines(ev)),
{
    reveal_strlit("event: ");
    reveal_strlit("id: ");
    reveal_strlit("retry: ");
    reveal_strlit("data: ");
    reveal_strlit("datastar-patch-elements");
    reveal_strlit("datastar-patch-signals");
    lemma_decimal_single_line(ev.retry);
    let ls = wire_lines(ev);
    let head = seq!["event: "@ + ev.event.token()] + id_lines(ev.id) + retry_lines(ev.retry);
    assert forall|i: int| 0 <= i < ls.len() implies single_line(#[trigger] ls[i]) by {
        if i < head.len() {
            assert(ls[i] == head[i]);
        } else {
            assert(ls[i] == "data: "@ + ev.data[i - head.len()]);
            assert(single_line(ev.data[i - head.len()]));
        }
    }
}

/// The pieces of the text of a well-formed event are its lines and two empty
/// pieces: the blank line, and nothing behind the last line feed.
pub proof fn lemma_wire_text_pieces(ev: EventView)
    requires
        ev.wf(),
    ensures
        pieces(wire_text(ev)) == wire_lines(ev) + seq![Seq::<char>::empty(), Seq::<char>::empty()],
{
    lemma_wire_lines_single(ev);
    let blank = seq!['\n'];
    lemma_pieces_terminated(wire_lines(ev), blank);
    assert(wire_text(ev) =~= terminated(wire_lines(ev)) + blank);
    assert(blank.drop_last() =~= Seq::<char>::empty());
    assert(pieces(blank.drop_last()) =~= seq![Seq::<char>::empty()]);
    assert(pieces(blank) =~= seq![Seq::<char>::empty(), Seq::<char>::empty()]);
}

/// Which of the field names a line begins with, for each of the four forms
/// that a line of an event has.
proof fn lemma_line_prefixes(rest: Seq<char>)
    ensures
        starts_with("event: "@ + rest, "event:"@),
        !starts_with("event: "@ + rest, "id:"@),
        !starts_with("event: "@ + rest, "retry:"@),
        !starts_with("event: "@ + rest, "id: "@),
        !starts_with("event: "@ + rest, "retry: "@),
        !starts_with("event: "@ + rest, "data: "@),
        !starts_with("id: "@ + rest, "event:"@),
        starts_with("id: "@ + rest, "id:"@),
        !starts_with("id: "@ + rest, "retry:"@),
        !starts_with("id: "@ + rest, "event: "@),
        !starts_with("id: "@ + rest, "retry: "@),
        !starts_with("id: "@ + rest, "data: "@),
        !starts_with("retry: "@ + rest, "event:"@),
        !starts_with("retry: "@ + rest, "id:"@),
        starts_with("retry: "@ + rest, "retry:"@),
        !starts_with("retry: "@ + rest, "event: "@),
        !starts_with("retry: "@ + rest, "id: "@),
        !starts_with("retry: "@ + rest, "data: "@),
        !starts_with("data: "@ + rest, "event:"@),
        !starts_with("data: "@ + rest, "id:"@),
        !starts_with("data: "@ + rest, "retry:"@),
        !starts_with("data: "@ + rest, "event: "@),
        !starts_with("data: "@ + rest, "id: "@),
        !starts_with("data: "@ + rest, "retry: "@),
{
    reveal_strlit("event: ");
    reveal_strlit("id: ");
    reveal_strlit("retry: ");
    reveal_strlit("data: ");
    reveal_strlit("event:");
    reveal_strlit("id:");
    reveal_strlit("retry:");
    let e = "event: "@ + rest;
    let i = "id: "@ + rest;
    let r = "retry: "@ + rest;
    let d = "data: "@ + rest;
    assert(e.subrange(0, 6) =~= "event:"@);
    assert(i.subrange(0, 3) =~= "id:"@);
    assert(r.subrange(0, 6) =~= "retry:"@);
    lemma_starts_with_differs(e, "id:"@, 0);
    lemma_starts_with_differs(e, "retry:"@, 0);
    lemma_starts_with_differs(e, "id: "@, 0);
    lemma_starts_with_differs(e, "retry: "@, 0);
    lemma_starts_with_differs(e, "data: "@, 0);
    lemma_starts_with_differs(i, "event:"@, 0);
    lemma_starts_with_differs(i, "retry:"@, 0);
    lemma_starts_with_differs(i, "event: "@, 0);
    lemma_starts_with_differs(i, "retry: "@, 0);
    lemma_starts_with_differs(i, "data: "@, 0);
    lemma_starts_with_differs(r, "event:"@, 0);
    lemma_starts_with_differs(r, "id:"@, 0);
    lemma_starts_with_differs(r, "event: "@, 0);
    lemma_starts_with_differs(r, "id: "@, 0);
    lemma_starts_with_differs(r, "data: "@, 0);
    lemma_starts_with_differs(d, "event:"@, 0);
    lemma_starts_with_differs(d, "id:"@, 0);
    lemma_starts_with_differs(d, "retry:"@, 0);
    lemma_starts_with_differs(d, "event: "@, 0);
    lemma_starts_with_differs(d, "id: "@, 0);
    lemma_starts_with_differs(d, "retry: "@, 0);
}

/// Whether `line` is an `event:` line, an `id:` line or a `retry:` line.
spec fn line_kind(line: Seq<char>) -> (bool, bool, bool) {
    (starts_with(line, "event:"@), starts_with(line, "id:"@), starts_with(line, "retry:"@))
}

/// The form of each piece of the text of a well-formed event: the first is
/// the `event:` line, the second the `id:` line where there is a replay id,
/// the next the `retry:` line where the retry interval is not the default,
/// and every other one is none of the three.
proof fn lemma_line_kinds(ev: EventView)
    requires
        ev.wf(),
    ensures
        ({
            let ls = pieces(wire_text(ev));
            let at_retry = 1 + id_lines(ev.id).len();
            &&& ls.len() == wire_lines(ev).len() + 2
            &&& wire_lines(ev).len() >= 1
            &&& forall|i: int|
                0 <= i < ls.len() ==> #[trigger] line_kind(ls[i]) == (
                    i == 0,
                    ev.id is Some && i == 1,
                    ev.retry != DEFAULT_SSE_RETRY_DURATION && i == at_retry,
                )
        }),
{
    let ls = pieces(wire_text(ev));
    let wl = wire_lines(ev);
    let head = seq!["event: "@ + ev.event.token()] + id_lines(ev.id) + retry_lines(ev.retry);
    let at_retry = 1 + id_lines(ev.id).len();
    lemma_wire_text_pieces(ev);
    assert forall|i: int| 0 <= i < ls.len() implies #[trigger] line_kind(ls[i]) == (
        i == 0,
        ev.id is Some && i == 1,
        ev.retry != DEFAULT_SSE_RETRY_DURATION && i == at_retry,
    ) by {
        if i == 0 {
            assert(ls[i] == "event: "@ + ev.event.token());
            lemma_line_prefixes(ev.event.token());
        } else if i < head.len() {
            assert(ls[i] == head[i]);
            if ev.id is Some && i == 1 {
                lemma_line_prefixes(ev.id->0);
            } else {
                lemma_line_prefixes(decimal(ev.retry));
            }
        } else if i < wl.len() {
            assert(ls[i] == "data: "@ + ev.data[i - head.len()]);
            lemma_line_prefixes(ev.data[i - head.len()]);
        } else {
            assert(ls[i].len() == 0);
            reveal_strlit("event:");
            reveal_strlit("id:");
            reveal_strlit("retry:");
        }
    }
}

/// The text of a well-formed event ends with exactly one blank line: its
/// last two characters are line feeds and the one before them is not. And
/// exactly one of its lines is an `event:` line, namely the first.
pub proof fn one_event_line_and_one_blank_line(ev: EventView)
    requires
        ev.wf(),
    ensures
        ({
            let text = wire_text(ev);
            let ls = pieces(text);
            &&& text.len() >= 3
            &&& text[text.len() - 1] == '\n'
            &&& text[text.len() - 2] == '\n'
            &&& text[text.len() - 3] != '\n'
            &&& forall|i: int|
                0 <= i < ls.len() ==> (starts_with(#[trigger] ls[i], "event:"@) <==> i == 0)
        }),
{
    let text = wire_text(ev);
    let ls = pieces(text);
    let wl = wire_lines(ev);
    let head = seq!["event: "@ + ev.event.token()] + id_lines(ev.id) + retry_lines(ev.retry);
    lemma_line_kinds(ev);
    lemma_wire_lines_single(ev);
    reveal_strlit("event: ");
    reveal_strlit("id: ");
    reveal_strlit("retry: ");
    reveal_strlit("data: ");
    let last = wl.last();
    assert(last.len() >= 1 && last[last.len() - 1] != '\n') by {
        let k = wl.len() - 1;
        assert(single_line(wl[k]));
        if k < head.len() {
            assert(wl[k] == head[k]);
        } else {
            assert(wl[k] == "data: "@ + ev.data[k - head.len()]);
        }
    }
    assert(text =~= (terminated(wl.drop_last()) + last.push('\n')).push('\n'));
    assert forall|i: int| 0 <= i < ls.len() implies (starts_with(#[trigger] ls[i], "event:"@) <==> i
        == 0) by {
        assert(line_kind(ls[i]).0 == (i == 0));
    }
}

/// The text of a well-formed event has a `retry:` line if and only if the
/// retry interval of the event is not the one that a client assumes, and an
/// `id:` line if and only if the event has a replay id.
pub proof fn retry_line_and_id_line(ev: EventView)
    requires
        ev.wf(),
    ensures
        ({
            let ls = pieces(wire_text(ev));
            &&& (exists|i: int| 0 <= i < ls.len() && starts_with(#[trigger] ls[i], "retry:"@))
                <==> ev.retry != DEFAULT_SSE_RETRY_DURATION
            &&& (exists|i: int| 0 <= i < ls.len() && starts_with(#[trigger] ls[i], "id:"@))
                <==> ev.id is Some
        }),
{
    let ls = pieces(wire_text(ev));
    let at_retry = 1 + id_lines(ev.id).len();
    lemma_line_kinds(ev);
    assert forall|i: int| 0 <= i < ls.len() implies (starts_with(#[trigger] ls[i], "retry:"@)
        <==> ev.retry != DEFAULT_SSE_RETRY_DURATION && i == at_retry) && (starts_with(
        ls[i],
        "id:"@,
    ) <==> ev.id is Some && i == 1) by {
        assert(line_kind(ls[i]).1 == (ev.id is Some && i == 1));
    }
    if ev.retry != DEFAULT_SSE_RETRY_DURATION {
        assert(0 <= at_retry < ls.len() && starts_with(ls[at_retry as int], "retry:"@)) by {
            assert(line_kind(ls[at_retry as int]).2);
        }
    }
    if ev.id is Some {
        assert(0 <= 1 < ls.len() && starts_with(ls[1], "id:"@)) by {
            assert(line_kind(ls[1]).1);
        }
    }
}

/// Read by the names of its fields, the text of a well-formed event gives
/// back the event: the token of its kind, its replay id if it has one, the
/// numeral of its retry interval unless that is the one a client assumes,
/// and its data lines, none merged and none out of order.
pub proof fn text_read_back(ev: EventView)
    requires
        ev.wf(),
    ensures
        ({
            let ls = pieces(wire_text(ev));
            &&& payloads(ls, "event: "@) == seq![ev.event.token()]
            &&& payloads(ls, "id: "@) == match ev.id {
                Some(id) => seq![id],
                None => Seq::empty(),
            }
            &&& payloads(ls, "retry: "@) == if ev.retry != DEFAULT_SSE_RETRY_DURATION {
                seq![decimal(ev.retry)]
            } else {
                Seq::empty()
            }
            &&& payloads(ls, "data: "@) == ev.data
        }),
{
    let ls = pieces(wire_text(ev));
    lemma_wire_text_pieces(ev);
    let first = seq!["event: "@ + ev.event.token()];
    let ids = id_lines(ev.id);
    let retries = retry_lines(ev.retry);
    let data = prefixed("data: "@, ev.data);
    let blanks = seq![Seq::<char>::empty(), Seq::<char>::empty()];
    assert(ls == first + ids + retries + data + blanks);
    reveal_strlit("event: ");
    reveal_strlit("id: ");
    reveal_strlit("retry: ");
    reveal_strlit("data: ");
    lemma_line_prefixes(ev.event.token());
    lemma_line_prefixes(decimal(ev.retry));
    if ev.id is Some {
        lemma_line_prefixes(ev.id->0);
    }
    assert forall|i: int| 0 <= i < data.len() implies !starts_with(#[trigger] data[i], "event: "@)
        && !starts_with(data[i], "id: "@) && !starts_with(data[i], "retry: "@) by {
        lemma_line_prefixes(ev.data[i]);
    }
    lemma_starts_with_own_prefix("event: "@, ev.event.token());
    lemma_starts_with_own_prefix("retry: "@, decimal(ev.retry));
    if ev.id is Some {
        lemma_starts_with_own_prefix("id: "@, ev.id->0);
    }
    lemma_payloads_of_prefixed(ev.data, "data: "@);
    lemma_read_parts(first, ids, retries, data, blanks, "event: "@);
    lemma_read_parts(first, ids, retries, data, blanks, "id: "@);
    lemma_read_parts(first, ids, retries, data, blanks, "retry: "@);
    lemma_read_parts(first, ids, retries, data, blanks, "data: "@);
    lemma_payloads_none(data, "event: "@);
    lemma_payloads_none(data, "id: "@);
    lemma_payloads_none(data, "retry: "@);
    lemma_payloads_short(first, "event: "@);
    lemma_payloads_short(first, "id: "@);
    lemma_payloads_short(first, "retry: "@);
    lemma_payloads_short(first, "data: "@);
    lemma_payloads_short(ids, "event: "@);
    lemma_payloads_short(ids, "id: "@);
    lemma_payloads_short(ids, "retry: "@);
    lemma_payloads_short(ids, "data: "@);
    lemma_payloads_short(retries, "event: "@);
    lemma_payloads_short(retries, "id: "@);
    lemma_payloads_short(retries, "retry: "@);
    lemma_payloads_short(retries, "data: "@);
    lemma_payloads_short(blanks, "event: "@);
    lemma_payloads_short(blanks, "id: "@);
    lemma_payloads_short(blanks, "retry: "@);
    lemma_payloads_short(blanks, "data: "@);
    assert(payloads(ls, "event: "@) =~= seq![ev.event.token()]);
    assert(payloads(ls, "id: "@) =~= match ev.id {
        Some(id) => seq![id],
        None => Seq::empty(),
    });
    assert(payloads(ls, "retry: "@) =~= if ev.retry != DEFAULT_SSE_RETRY_DURATION {
        seq![decimal(ev.retry)]
    } else {
        Seq::empty()
    });
    assert(payloads(ls, "data: "@) =~= ev.data);
}

/// What is read from five lists of lines, one after the other.
proof fn lemma_read_parts(
    a: Seq<Seq<char>>,
    b: Seq<Seq<char>>,
    c: Seq<Seq<char>>,
    d: Seq<Seq<char>>,
    e: Seq<Seq<char>>,
    prefix: Seq<char>,
)
    ensures
        payloads(a + b + c + d + e, prefix) == payloads(a, prefix) + payloads(b, prefix) + payloads(
            c,
            prefix,
        ) + payloads(d, prefix) + payloads(e, prefix),
{
    lemma_payloads_concat(a, b, prefix);
    lemma_payloads_concat(a + b, c, prefix);
    lemma_payloads_concat(a + b + c, d, prefix);
    lemma_payloads_concat(a + b + c + d, e, prefix);
}

/// What is read from a list of at most two lines.
proof fn lemma_payloads_short(ls: Seq<Seq<char>>, prefix: Seq<char>)
    requires
        ls.len() <= 2,
    ensures
        ls.len() == 0 ==> payloads(ls, prefix) == Seq::<Seq<char>>::empty(),
        ls.len() == 1 ==> payloads(ls, prefix) == if starts_with(ls[0], prefix) {
            seq![ls[0].skip(prefix.len() as int)]
        } else {
            Seq::empty()
        },
        ls.len() == 2 && !starts_with(ls[0], prefix) && !starts_with(ls[1], prefix) ==> payloads(
            ls,
            prefix,
        ) == Seq::<Seq<char>>::empty(),
    decreases ls.len(),
{
    if ls.len() == 1 {
        assert(payloads(ls.drop_last(), prefix) =~= Seq::<Seq<char>>::empty());
        assert(payloads(ls, prefix) =~= if starts_with(ls[0], prefix) {
            seq![ls[0].skip(prefix.len() as int)]
        } else {
            Seq::empty()
        });
    } else if ls.len() == 2 {
        lemma_payloads_short(ls.drop_last(), prefix);
    }
}

} // verus!
