//! Text as sequences of characters: the lines of a text, data lines and how
//! they are read back by their keys, and decimal numerals.

use vstd::prelude::*;
use vstd::std_specs::iter::IteratorSpec;
use vstd::string::StringExecFns;

verus! {

broadcast use vstd::string::group_string_axioms;

/// `String::push` appends one character to the end of the string and leaves
/// the characters before it as they were.
pub assume_specification[ String::push ](s: &mut String, c: char)
    ensures
        final(s)@ == old(s)@.push(c),
;

// What the contracts speak of.

/// Whether `s` holds no line feed.
pub open spec fn single_line(s: Seq<char>) -> bool {
    forall|i: int| 0 <= i < s.len() ==> s[i] != '\n'
}

/// Whether no member of `ls` holds a line feed.
pub open spec fn single_lines(ls: Seq<Seq<char>>) -> bool {
    forall|i: int| 0 <= i < ls.len() ==> single_line(#[trigger] ls[i])
}

/// The pieces of `s` between its line feeds: a text with `k` line feeds has
/// `k + 1` pieces, and none of them holds a line feed.
pub open spec fn pieces(s: Seq<char>) -> Seq<Seq<char>>
    decreases s.len(),
{
    if s.len() == 0 {
        seq![Seq::<char>::empty()]
    } else {
        let before = pieces(s.drop_last());
        if s.last() == '\n' {
            before.push(Seq::<char>::empty())
        } else {
            before.drop_last().push(before.last().push(s.last()))
        }
    }
}

/// `line` without the carriage return at its end, if it has one.
pub open spec fn without_cr(line: Seq<char>) -> Seq<char> {
    if line.len() > 0 && line.last() == '\r' {
        line.drop_last()
    } else {
        line
    }
}

/// The lines of `s`. A line ends at a line feed, and a carriage return just
/// before that line feed is not part of the line. What follows the last line
/// feed is a line of its own unless it is empty, and keeps a carriage return
/// at its end. The empty text has no lines.
pub open spec fn lines(s: Seq<char>) -> Seq<Seq<char>> {
    let p = pieces(s);
    let ended = Seq::new((p.len() - 1) as nat, |i: int| without_cr(p[i]));
    if p.last().len() > 0 {
        ended.push(p.last())
    } else {
        ended
    }
}

/// The views of the strings of `v`, in order.
pub open spec fn views(v: Seq<String>) -> Seq<Seq<char>> {
    Seq::new(v.len(), |i: int| v[i]@)
}

/// The decimal digit that stands for `d`, for `d` below ten.
pub open spec fn digit(d: nat) -> char {
    ('0' as nat + d) as char
}

/// The decimal numeral of `n`, without sign and without leading zeros.
pub open spec fn decimal(n: nat) -> Seq<char>
    decreases n,
{
    if n < 10 {
        seq![digit(n)]
    } else {
        decimal(n / 10).push(digit(n % 10))
    }
}

/// The text that stands for a flag in a data line.
pub open spec fn flag_text(flag: bool) -> Seq<char> {
    if flag {
        "true"@
    } else {
        "false"@
    }
}

/// A data line: a key, one space, and a value.
pub open spec fn data_line(key: Seq<char>, value: Seq<char>) -> Seq<char> {
    key.push(' ') + value
}

/// Each member of `values` as a data line under `key`.
pub open spec fn data_lines(key: Seq<char>, values: Seq<Seq<char>>) -> Seq<Seq<char>> {
    Seq::new(values.len(), |i: int| data_line(key, values[i]))
}

/// Whether `s` begins with `prefix`.
pub open spec fn starts_with(s: Seq<char>, prefix: Seq<char>) -> bool {
    prefix.len() <= s.len() && s.subrange(0, prefix.len() as int) == prefix
}

/// What stands behind `prefix` in those members of `ls` that begin with it,
/// in order.
pub open spec fn payloads(ls: Seq<Seq<char>>, prefix: Seq<char>) -> Seq<Seq<char>>
    decreases ls.len(),
{
    if ls.len() == 0 {
        Seq::empty()
    } else if starts_with(ls.last(), prefix) {
        payloads(ls.drop_last(), prefix).push(ls.last().skip(prefix.len() as int))
    } else {
        payloads(ls.drop_last(), prefix)
    }
}

/// Each member of `ls` behind `prefix`.
pub open spec fn prefixed(prefix: Seq<char>, ls: Seq<Seq<char>>) -> Seq<Seq<char>> {
    Seq::new(ls.len(), |i: int| prefix + ls[i])
}

/// The values of the data lines under `key` among `data`, in order.
pub open spec fn values_under(data: Seq<Seq<char>>, key: Seq<char>) -> Seq<Seq<char>> {
    payloads(data, key.push(' '))
}

/// The value of the first data line under `key` among `data`, if there is one.
pub open spec fn value_under(data: Seq<Seq<char>>, key: Seq<char>) -> Option<Seq<char>> {
    if values_under(data, key).len() > 0 {
        Some(values_under(data, key)[0])
    } else {
        None
    }
}

// The functions.

/// Splits `s` into its lines.
pub fn split_lines(s: &str) -> (out: Vec<String>)
    ensures
        views(out@) == lines(s@),
{
    let mut done: Vec<String> = Vec::new();
    let mut cur = String::new();
    let mut held_cr = false;
    let mut it = s.chars();
    let ghost mut seen: Seq<char> = Seq::empty();
    loop
        invariant
            it.obeys_prophetic_iter_laws(),
            it.decrease() is Some,
            s@ == seen + it.remaining(),
            pieces(seen).len() >= 1,
            views(done@) == Seq::new(
                (pieces(seen).len() - 1) as nat,
                |i: int| without_cr(pieces(seen)[i]),
            ),
            pieces(seen).last() == if held_cr {
                cur@.push('\r')
            } else {
                cur@
            },
            !held_cr ==> (cur@.len() == 0 || cur@.last() != '\r'),
        ensures
            s@ == seen,
        decreases it.decrease()->0,
    {
        let ghost rest = it.remaining();
        let ghost old_pieces = pieces(seen);
        let ghost old_done = views(done@);
        match it.next() {
            None => {
                assert(seen + it.remaining() =~= seen);
                break ;
            },
            Some(c) => {
                let ghost next = seen.push(c);
                proof {
                    assert(next.drop_last() =~= seen);
                    assert(next + it.remaining() =~= seen + rest);
                    lemma_pieces_nonempty(next);
                }
                if c == '\n' {
                    let line = cur;
                    cur = String::new();
                    done.push(line);
                    held_cr = false;
                    proof {
                        assert(pieces(next) == old_pieces.push(Seq::<char>::empty()));
                        assert(without_cr(old_pieces.last()) =~= line@);
                        assert(views(done@) =~= old_done.push(line@));
                        assert(views(done@) =~= Seq::new(
                            (pieces(next).len() - 1) as nat,
                            |i: int| without_cr(pieces(next)[i]),
                        ));
                    }
                } else {
                    if held_cr {
                        cur.push('\r');
                    }
                    if c == '\r' {
                        held_cr = true;
                    } else {
                        cur.push(c);
                        held_cr = false;
                    }
                    proof {
                        assert(pieces(next) == old_pieces.drop_last().push(
                            old_pieces.last().push(c),
                        ));
                        assert(views(done@) =~= Seq::new(
                            (pieces(next).len() - 1) as nat,
                            |i: int| without_cr(pieces(next)[i]),
                        ));
                    }
                }
                proof {
                    seen = next;
                }
            },
        }
    }
    if held_cr {
        cur.push('\r');
    }
    let ghost ended = views(done@);
    if !cur.as_str().is_empty() {
        let ghost tail = cur@;
        done.push(cur);
        assert(views(done@) =~= ended.push(tail));
    }
    done
}

fn digit_char(d: u128) -> (c: char)
    requires
        d < 10,
    ensures
        c == digit(d as nat),
{
    if d == 0 {
        '0'
    } else if d == 1 {
        '1'
    } else if d == 2 {
        '2'
    } else if d == 3 {
        '3'
    } else if d == 4 {
        '4'
    } else if d == 5 {
        '5'
    } else if d == 6 {
        '6'
    } else if d == 7 {
        '7'
    } else if d == 8 {
        '8'
    } else {
        '9'
    }
}

/// Appends the decimal numeral of `n` to `out`.
pub fn push_decimal(out: &mut String, n: u128)
    ensures
        final(out)@ == old(out)@ + decimal(n as nat),
    decreases n,
{
    if n >= 10 {
        push_decimal(out, n / 10);
    }
    out.push(digit_char(n % 10));
    proof {
        if n >= 10 {
            assert(final(out)@ =~= old(out)@ + decimal((n / 10) as nat).push(
                digit((n % 10) as nat),
            ));
        } else {
            assert(final(out)@ =~= old(out)@ + seq![digit(n as nat)]);
        }
    }
}

/// The text that stands for a flag in a data line.
pub fn flag_str(flag: bool) -> (text: &'static str)
    ensures
        text@ == flag_text(flag),
{
    if flag {
        "true"
    } else {
        "false"
    }
}

/// Writes a data line from its key and its value.
pub fn make_data_line(key: &str, value: &str) -> (line: String)
    ensures
        line@ == data_line(key@, value@),
{
    let mut line = key.to_owned();
    line.push(' ');
    line.append(value);
    line
}

// What holds of pieces, lines and prefixes.

/// Every text has at least one piece.
pub proof fn lemma_pieces_nonempty(s: Seq<char>)
    ensures
        pieces(s).len() >= 1,
    decreases s.len(),
{
    if s.len() > 0 {
        lemma_pieces_nonempty(s.drop_last());
    }
}

/// No piece of a text holds a line feed.
pub proof fn lemma_pieces_single_line(s: Seq<char>)
    ensures
        forall|i: int| 0 <= i < pieces(s).len() ==> single_line(#[trigger] pieces(s)[i]),
    decreases s.len(),
{
    if s.len() > 0 {
        lemma_pieces_single_line(s.drop_last());
        lemma_pieces_nonempty(s.drop_last());
    }
}

/// No line of a text holds a line feed.
pub proof fn lemma_lines_single_line(s: Seq<char>)
    ensures
        single_lines(lines(s)),
{
    lemma_pieces_single_line(s);
    lemma_pieces_nonempty(s);
}

/// A text without a line feed is one piece.
pub proof fn lemma_pieces_of_single_line(s: Seq<char>)
    requires
        single_line(s),
    ensures
        pieces(s) == seq![s],
    decreases s.len(),
{
    if s.len() == 0 {
        assert(s =~= Seq::<char>::empty());
    } else {
        lemma_pieces_of_single_line(s.drop_last());
        let before = pieces(s.drop_last());
        assert(s[s.len() - 1] != '\n');
        assert(before.last().push(s.last()) =~= s);
        assert(before.drop_last() =~= Seq::<Seq<char>>::empty());
        assert(pieces(s) == before.drop_last().push(before.last().push(s.last())));
        assert(pieces(s) =~= seq![s]);
    }
}

/// A line feed between two texts parts the pieces of the one from the pieces
/// of the other.
pub proof fn lemma_pieces_concat(a: Seq<char>, b: Seq<char>)
    ensures
        pieces(a.push('\n') + b) == pieces(a) + pieces(b),
    decreases b.len(),
{
    let s = a.push('\n') + b;
    if b.len() == 0 {
        assert(s.drop_last() =~= a);
        assert(pieces(s) =~= pieces(a) + pieces(b));
    } else {
        lemma_pieces_concat(a, b.drop_last());
        lemma_pieces_nonempty(b.drop_last());
        assert(s.drop_last() =~= a.push('\n') + b.drop_last());
        assert(pieces(s) =~= pieces(a) + pieces(b));
    }
}

/// A prefix is found in front of what it was put in front of.
pub proof fn lemma_starts_with_own_prefix(prefix: Seq<char>, s: Seq<char>)
    ensures
        starts_with(prefix + s, prefix),
        (prefix + s).skip(prefix.len() as int) == s,
{
    assert((prefix + s).subrange(0, prefix.len() as int) =~= prefix);
    assert((prefix + s).skip(prefix.len() as int) =~= s);
}

/// A text does not begin with a prefix that differs from it at some place
/// that both have.
pub proof fn lemma_starts_with_differs(s: Seq<char>, prefix: Seq<char>, at: int)
    requires
        0 <= at < prefix.len(),
        at < s.len(),
        s[at] != prefix[at],
    ensures
        !starts_with(s, prefix),
{
    if starts_with(s, prefix) {
        assert(s.subrange(0, prefix.len() as int)[at] == prefix[at]);
    }
}

/// What is read from two lists of lines, one after the other, is what is
/// read from the one followed by what is read from the other.
pub proof fn lemma_payloads_concat(a: Seq<Seq<char>>, b: Seq<Seq<char>>, prefix: Seq<char>)
    ensures
        payloads(a + b, prefix) == payloads(a, prefix) + payloads(b, prefix),
    decreases b.len(),
{
    if b.len() == 0 {
        assert(a + b =~= a);
        assert(payloads(a, prefix) + payloads(b, prefix) =~= payloads(a, prefix));
    } else {
        lemma_payloads_concat(a, b.drop_last(), prefix);
        assert((a + b).drop_last() =~= a + b.drop_last());
        assert((a + b).last() == b.last());
        assert(payloads(a + b, prefix) =~= payloads(a, prefix) + payloads(b, prefix));
    }
}

/// Lines that were all put behind a prefix are read back under it as they were.
pub proof fn lemma_payloads_of_prefixed(ls: Seq<Seq<char>>, prefix: Seq<char>)
    ensures
        payloads(prefixed(prefix, ls), prefix) == ls,
    decreases ls.len(),
{
    let all = prefixed(prefix, ls);
    if ls.len() == 0 {
        assert(payloads(all, prefix) =~= ls);
    } else {
        lemma_payloads_of_prefixed(ls.drop_last(), prefix);
        assert(all.drop_last() =~= prefixed(prefix, ls.drop_last()));
        lemma_starts_with_own_prefix(prefix, ls.last());
        assert(all.last() == prefix + ls.last());
        assert(payloads(all, prefix) =~= ls);
    }
}

/// Nothing is read under a prefix with which no line begins.
pub proof fn lemma_payloads_none(ls: Seq<Seq<char>>, prefix: Seq<char>)
    requires
        forall|i: int| 0 <= i < ls.len() ==> !starts_with(#[trigger] ls[i], prefix),
    ensures
        payloads(ls, prefix) == Seq::<Seq<char>>::empty(),
    decreases ls.len(),
{
    if ls.len() > 0 {
        lemma_payloads_none(ls.drop_last(), prefix);
    }
}

/// A numeral is made of digits, so it holds no line feed.
pub proof fn lemma_decimal_single_line(n: nat)
    ensures
        single_line(decimal(n)),
        decimal(n).len() >= 1,
    decreases n,
{
    if n >= 10 {
        lemma_decimal_single_line(n / 10);
    }
}

/// A data line holds no line feed if neither its key nor its value does.
pub proof fn lemma_data_line_single(key: Seq<char>, value: Seq<char>)
    requires
        single_line(key),
        single_line(value),
    ensures
        single_line(data_line(key, value)),
{
}

/// Data lines hold no line feed if neither their key nor any of their values does.
pub proof fn lemma_data_lines_single(key: Seq<char>, values: Seq<Seq<char>>)
    requires
        single_line(key),
        single_lines(values),
    ensures
        single_lines(data_lines(key, values)),
{
    assert forall|i: int| 0 <= i < values.len() implies single_line(
        #[trigger] data_lines(key, values)[i],
    ) by {
        assert(single_line(values[i]));
        lemma_data_line_single(key, values[i]);
    }
}

/// Under its own key a data line is read with its value.
pub proof fn lemma_read_own_key(key: Seq<char>, value: Seq<char>)
    ensures
        values_under(seq![data_line(key, value)], key) == seq![value],
{
    let line = data_line(key, value);
    lemma_starts_with_own_prefix(key.push(' '), value);
    let front = seq![line].drop_last();
    assert(front.len() == 0);
    assert(payloads(front, key.push(' ')) =~= Seq::<Seq<char>>::empty());
    assert(seq![line].last() == line);
    assert(payloads(seq![line], key.push(' ')) =~= seq![value]);
}

/// Under a key that begins with another character a data line is not read.
pub proof fn lemma_read_other_key(key: Seq<char>, value: Seq<char>, other: Seq<char>)
    requires
        key.len() > 0,
        other.len() > 0,
        key[0] != other[0],
    ensures
        !starts_with(data_line(key, value), other.push(' ')),
        values_under(seq![data_line(key, value)], other) == Seq::<Seq<char>>::empty(),
{
    let line = data_line(key, value);
    lemma_starts_with_differs(line, other.push(' '), 0);
    let front = seq![line].drop_last();
    assert(front.len() == 0);
    assert(payloads(front, other.push(' ')) =~= Seq::<Seq<char>>::empty());
    assert(seq![line].last() == line);
}

/// Under their own key data lines are read with their values, in order.
pub proof fn lemma_read_own_lines(key: Seq<char>, values: Seq<Seq<char>>)
    ensures
        values_under(data_lines(key, values), key) == values,
{
    assert(data_lines(key, values) =~= prefixed(key.push(' '), values));
    lemma_payloads_of_prefixed(values, key.push(' '));
}

/// Under a key that begins with another character none of the data lines is read.
pub proof fn lemma_read_other_lines(key: Seq<char>, values: Seq<Seq<char>>, other: Seq<char>)
    requires
        key.len() > 0,
        other.len() > 0,
        key[0] != other[0],
    ensures
        values_under(data_lines(key, values), other) == Seq::<Seq<char>>::empty(),
{
    let ls = data_lines(key, values);
    assert forall|i: int| 0 <= i < ls.len() implies !starts_with(
        #[trigger] ls[i],
        other.push(' '),
    ) by {
        lemma_read_other_key(key, values[i], other);
    }
    lemma_payloads_none(ls, other.push(' '));
}

} // verus!
