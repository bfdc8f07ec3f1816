//! [`ExecuteScript`] runs JavaScript in the browser.
//!
//! A script is sent as a `<script>` element that is appended to the body of
//! the document, so the event is one that patches elements.

use crate::consts::{
    ElementPatchMode, EventType, DEFAULT_SSE_RETRY_DURATION, ELEMENTS_DATALINE_LITERAL,
    MODE_DATALINE_LITERAL, SELECTOR_DATALINE_LITERAL,
};
use crate::duration::whole_millis;
use crate::patch_elements::{lemma_mode_tokens, read_elements, ElementsRead};
use crate::text::{
    data_line, data_lines, lemma_data_lines_single, lemma_lines_single_line,
    lemma_payloads_concat, lemma_read_other_key, lemma_read_other_lines, lemma_read_own_key,
    lemma_read_own_lines, lines, make_data_line, payloads, pieces, single_line, single_lines,
    split_lines, values_under, views,
};
use crate::wire::{text_read_back, wire_text, EventView};
use crate::{opt_view, DatastarEvent};
use core::time::Duration;
use vstd::prelude::*;
use vstd::std_specs::convert::FromSpecImpl;
use vstd::string::StringExecFns;

verus! {

/// The attribute by which a script element removes itself once it has run.
pub open spec fn self_removal() -> Seq<char> {
    " data-effect=\"el.remove()\""@
}

/// The members of `attributes` one after the other, each behind one space.
pub open spec fn spaced(attributes: Seq<Seq<char>>) -> Seq<char>
    decreases attributes.len(),
{
    if attributes.len() == 0 {
        Seq::empty()
    } else {
        spaced(attributes.drop_last()) + seq![' '] + attributes.last()
    }
}

/// The opening tag of the script element: the self-removal attribute unless
/// `auto_remove` is set to `false`, then the given attributes.
pub open spec fn opening_tag(auto_remove: Option<bool>, attributes: Seq<Seq<char>>) -> Seq<char> {
    "<script"@ + (if auto_remove != Some(false) {
        self_removal()
    } else {
        Seq::empty()
    }) + spaced(attributes) + seq!['>']
}

/// The lines of the script, of which there is at least one: a script without
/// lines counts as one empty line.
pub open spec fn script_body(script: Seq<char>) -> Seq<Seq<char>> {
    if lines(script).len() == 0 {
        seq![Seq::<char>::empty()]
    } else {
        lines(script)
    }
}

/// Line `i` of the script element whose opening tag is `opening` and whose
/// content is `body`: the opening tag stands before the first line of the
/// script and the closing tag behind the last.
pub open spec fn element_line(opening: Seq<char>, body: Seq<Seq<char>>, i: int) -> Seq<char> {
    (if i == 0 {
        opening
    } else {
        Seq::empty()
    }) + body[i] + (if i == body.len() - 1 {
        "</script>"@
    } else {
        Seq::empty()
    })
}

/// The markup of the script element, line by line. It has as many lines as
/// the script, and one where the script has none.
pub open spec fn script_element(
    script: Seq<char>,
    auto_remove: Option<bool>,
    attributes: Seq<Seq<char>>,
) -> Seq<Seq<char>> {
    let body = script_body(script);
    Seq::new(body.len(), |i: int| element_line(opening_tag(auto_remove, attributes), body, i))
}

/// Attributes without a line feed make a run of attributes without one.
pub proof fn lemma_spaced_single(attributes: Seq<Seq<char>>)
    requires
        single_lines(attributes),
    ensures
        single_line(spaced(attributes)),
    decreases attributes.len(),
{
    if attributes.len() > 0 {
        let front = attributes.drop_last();
        assert forall|i: int| 0 <= i < front.len() implies single_line(#[trigger] front[i]) by {
            assert(front[i] == attributes[i]);
        }
        lemma_spaced_single(front);
        assert(single_line(attributes[attributes.len() - 1]));
    }
}

/// No line of a script element holds a line feed if no attribute does.
pub proof fn lemma_script_element_single(
    script: Seq<char>,
    auto_remove: Option<bool>,
    attributes: Seq<Seq<char>>,
)
    requires
        single_lines(attributes),
    ensures
        single_lines(script_element(script, auto_remove, attributes)),
{
    reveal_strlit("<script");
    reveal_strlit("</script>");
    reveal_strlit(" data-effect=\"el.remove()\"");
    lemma_spaced_single(attributes);
    lemma_lines_single_line(script);
    let body = script_body(script);
    let opening = opening_tag(auto_remove, attributes);
    let element = script_element(script, auto_remove, attributes);
    assert(single_line(opening));
    assert forall|i: int| 0 <= i < element.len() implies single_line(#[trigger] element[i]) by {
        assert(single_line(body[i])) by {
            if lines(script).len() > 0 {
                assert(body[i] == lines(script)[i]);
            }
        }
        assert(element[i] == element_line(opening, body, i));
    }
}

/// [`ExecuteScript`] runs JavaScript in the browser.
#[derive(Debug, Clone, PartialEq, Eq, Hash)]
pub struct ExecuteScript {
    /// An id by which a client that reconnects can ask for the events it missed.
    pub id: Option<String>,
    /// How long a client waits before it reconnects after the connection is lost.
    pub retry: Duration,
    /// The JavaScript that the browser is to run.
    pub script: String,
    /// Whether the script element is removed once it has run. Where nothing
    /// is set, it is.
    pub auto_remove: Option<bool>,
    /// Attributes of the script element, each written out as it is to stand
    /// in the tag, such as `type="module"`.
    pub attributes: Vec<String>,
}

impl ExecuteScript {
    /// The data lines of the event that this script becomes: the selector of
    /// the body, the mode that appends, then the script element line by line.
    pub open spec fn data(&self) -> Seq<Seq<char>> {
        seq![
            data_line(SELECTOR_DATALINE_LITERAL@, "body"@),
            data_line(MODE_DATALINE_LITERAL@, ElementPatchMode::Append.token()),
        ] + data_lines(
            ELEMENTS_DATALINE_LITERAL@,
            script_element(self.script@, self.auto_remove, views(self.attributes@)),
        )
    }

    /// The event that this script becomes when it is sent under the replay id `id`.
    pub open spec fn event_with(&self, id: Option<Seq<char>>) -> EventView {
        EventView {
            event: EventType::PatchElements,
            id,
            retry: whole_millis(self.retry),
            data: self.data(),
        }
    }

    /// The event that this script becomes.
    pub open spec fn event(&self) -> EventView {
        self.event_with(opt_view(self.id))
    }

    /// A script is well formed when neither its replay id nor any of its
    /// attributes holds a line feed. The script itself may hold any number
    /// of them.
    pub open spec fn wf(&self) -> bool {
        &&& self.id matches Some(id) ==> single_line(id@)
        &&& single_lines(views(self.attributes@))
    }

    /// A well-formed script becomes a well-formed event: the script is split
    /// at its line feeds, so no data line holds one.
    pub proof fn event_is_well_formed(&self)
        requires
            self.wf(),
        ensures
            self.event().wf(),
    {
        reveal_strlit("selector");
        reveal_strlit("mode");
        reveal_strlit("elements");
        reveal_strlit("body");
        lemma_mode_tokens();
        let attributes = views(self.attributes@);
        let element = script_element(self.script@, self.auto_remove, attributes);
        lemma_script_element_single(self.script@, self.auto_remove, attributes);
        lemma_data_lines_single(ELEMENTS_DATALINE_LITERAL@, element);
        let head = seq![
            data_line(SELECTOR_DATALINE_LITERAL@, "body"@),
            data_line(MODE_DATALINE_LITERAL@, ElementPatchMode::Append.token()),
        ];
        let tail = data_lines(ELEMENTS_DATALINE_LITERAL@, element);
        let data = self.data();
        assert forall|i: int| 0 <= i < data.len() implies single_line(#[trigger] data[i]) by {
            if i < head.len() {
                assert(data[i] == head[i]);
            } else {
                assert(data[i] == tail[i - head.len()]);
            }
        }
    }

    /// The given script, with no attributes and everything else as a client
    /// assumes it.
    pub fn new(script: &str) -> (exec: Self)
        ensures
            exec.id is None,
            whole_millis(exec.retry) == DEFAULT_SSE_RETRY_DURATION,
            exec.script@ == script@,
            exec.auto_remove is None,
            exec.attributes@.len() == 0,
            exec.wf(),
    {
        ExecuteScript {
            id: None,
            retry: Duration::from_millis(DEFAULT_SSE_RETRY_DURATION),
            script: script.to_owned(),
            auto_remove: None,
            attributes: Vec::new(),
        }
    }

    /// The same script under the replay id `id`.
    pub fn id(self, id: &str) -> (exec: Self)
        ensures
            opt_view(exec.id) == Some(id@),
            exec.retry == self.retry,
            exec.script == self.script,
            exec.auto_remove == self.auto_remove,
            exec.attributes == self.attributes,
    {
        ExecuteScript { id: Some(id.to_owned()), ..self }
    }

    /// The same script with the retry interval `retry`.
    pub fn retry(self, retry: Duration) -> (exec: Self)
        ensures
            exec.id == self.id,
            exec.retry == retry,
            exec.script == self.script,
            exec.auto_remove == self.auto_remove,
            exec.attributes == self.attributes,
    {
        ExecuteScript { retry, ..self }
    }

    /// The same script, with the choice made whether its element is removed
    /// once it has run.
    pub fn auto_remove(self, auto_remove: bool) -> (exec: Self)
        ensures
            exec.id == self.id,
            exec.retry == self.retry,
            exec.script == self.script,
            exec.auto_remove == Some(auto_remove),
            exec.attributes == self.attributes,
    {
        ExecuteScript { auto_remove: Some(auto_remove), ..self }
    }

    /// The same script with the given attributes in place of those it had.
    pub fn attributes(self, attributes: Vec<String>) -> (exec: Self)
        ensures
            exec.id == self.id,
            exec.retry == self.retry,
            exec.script == self.script,
            exec.auto_remove == self.auto_remove,
            exec.attributes == attributes,
    {
        ExecuteScript { attributes, ..self }
    }

    /// Turns this script into the event that is sent for it.
    pub fn into_datastar_event(self) -> (ev: DatastarEvent)
        ensures
            ev@ == self.event(),
            ev.retry == self.retry,
            self.wf() ==> ev.wf(),
    {
        proof {
            if self.wf() {
                self.event_is_well_formed();
            }
        }
        let mut exec = self;
        let id = exec.id.take();
        exec.convert_to_datastar_event_inner(id)
    }

    /// The event that is sent for this script.
    pub fn as_datastar_event(&self) -> (ev: DatastarEvent)
        ensures
            ev@ == self.event(),
            ev.retry == self.retry,
            self.wf() ==> ev.wf(),
    {
        proof {
            if self.wf() {
                self.event_is_well_formed();
            }
        }
        self.convert_to_datastar_event_inner(self.id.clone())
    }

    fn convert_to_datastar_event_inner(&self, id: Option<String>) -> (ev: DatastarEvent)
        ensures
            ev@ == self.event_with(opt_view(id)),
            ev.retry == self.retry,
    {
        let mut data: Vec<String> = Vec::new();
        data.push(make_data_line(SELECTOR_DATALINE_LITERAL, "body"));
        data.push(make_data_line(MODE_DATALINE_LITERAL, ElementPatchMode::Append.as_str()));
        let ghost head = seq![
            data_line(SELECTOR_DATALINE_LITERAL@, "body"@),
            data_line(MODE_DATALINE_LITERAL@, ElementPatchMode::Append.token()),
        ];
        assert(views(data@) =~= head);

        let mut tag = String::from_str("<script");
        let remove = match self.auto_remove {
            Some(choice) => choice,
            None => true,
        };
        if remove {
            tag.append(" data-effect=\"el.remove()\"");
        }
        let ghost tag_head = tag@;
        let attrs = &self.attributes;
        let count = attrs.len();
        let mut k: usize = 0;
        assert(views(attrs@).take(0) =~= Seq::<Seq<char>>::empty());
        while k < count
            invariant
                k <= count,
                count == attrs.len(),
                tag@ == tag_head + spaced(views(attrs@).take(k as int)),
            decreases count - k,
        {
            tag.push(' ');
            tag.append(attrs[k].as_str());
            proof {
                let grown = views(attrs@).take(k + 1);
                assert(grown.drop_last() =~= views(attrs@).take(k as int));
                assert(grown.last() == attrs[k as int]@);
                assert(tag@ =~= tag_head + spaced(grown));
            }
            k += 1;
        }
        tag.push('>');
        proof {
            assert(views(attrs@).take(count as int) =~= views(attrs@));
            assert(tag@ =~= opening_tag(self.auto_remove, views(attrs@)));
        }
        let ghost opening = opening_tag(self.auto_remove, views(attrs@));
        let ghost body = script_body(self.script@);
        let ghost element = script_element(self.script@, self.auto_remove, views(attrs@));

        let script = split_lines(self.script.as_str());
        let n = script.len();
        let mut open_line = make_data_line(ELEMENTS_DATALINE_LITERAL, tag.as_str());
        if n > 0 {
            assert(views(script@)[0] == script[0]@);
            open_line.append(script[0].as_str());
        }
        // `open_line` is the last line written so far, short of the closing
        // tag that it gets if no other line follows.
        let ghost mut at: int = 0;
        assert(open_line@ =~= ELEMENTS_DATALINE_LITERAL@.push(' ') + (opening + body[0]));
        let mut i: usize = 1;
        while i < n
            invariant
                1 <= i,
                n > 0 ==> i <= n,
                n == script.len(),
                views(script@) == lines(self.script@),
                body == script_body(self.script@),
                element == Seq::new(body.len(), |j: int| element_line(opening, body, j)),
                at == i - 1,
                0 <= at < body.len(),
                open_line@ == ELEMENTS_DATALINE_LITERAL@.push(' ') + ((if at == 0 {
                    opening
                } else {
                    Seq::empty()
                }) + body[at]),
                views(data@) == head + data_lines(ELEMENTS_DATALINE_LITERAL@, element.take(at)),
            decreases n - i,
        {
            let ghost before = views(data@);
            let ghost added = open_line@;
            data.push(open_line);
            open_line = make_data_line(ELEMENTS_DATALINE_LITERAL, script[i].as_str());
            proof {
                assert(views(script@)[i as int] == script[i as int]@);
                assert(views(data@) =~= before.push(added));
                assert(element[at] =~= (if at == 0 {
                    opening
                } else {
                    Seq::empty()
                }) + body[at]);
                assert(views(data@) =~= head + data_lines(
                    ELEMENTS_DATALINE_LITERAL@,
                    element.take(at + 1),
                ));
                at = at + 1;
                assert(open_line@ =~= ELEMENTS_DATALINE_LITERAL@.push(' ') + (Seq::<char>::empty()
                    + body[at]));
            }
            i += 1;
        }
        open_line.append("</script>");
        let ghost before = views(data@);
        let ghost added = open_line@;
        data.push(open_line);
        proof {
            assert(at == body.len() - 1);
            assert(added =~= data_line(ELEMENTS_DATALINE_LITERAL@, element[at]));
            assert(views(data@) =~= before.push(added));
            assert(element.take(at + 1) =~= element);
            assert(views(data@) =~= head + data_lines(ELEMENTS_DATALINE_LITERAL@, element));
        }
        DatastarEvent { event: EventType::PatchElements, id, retry: self.retry, data }
    }
}

impl From<ExecuteScript> for DatastarEvent {
    /// Turns a script into the event that is sent for it.
    fn from(val: ExecuteScript) -> (ev: DatastarEvent)
        ensures
            ev@ == val.event(),
            ev.retry == val.retry,
            val.wf() ==> ev.wf(),
    {
        val.into_datastar_event()
    }
}

// The event is pinned by the clauses of `from`: no spec expression can make
// the strings that an event holds.
impl FromSpecImpl<ExecuteScript> for DatastarEvent {
    open spec fn obeys_from_spec() -> bool {
        false
    }

    open spec fn from_spec(val: ExecuteScript) -> DatastarEvent {
        arbitrary()
    }
}

impl From<&ExecuteScript> for DatastarEvent {
    /// The event that is sent for a script.
    fn from(val: &ExecuteScript) -> (ev: DatastarEvent)
        ensures
            ev@ == val.event(),
            ev.retry == val.retry,
            val.wf() ==> ev.wf(),
    {
        val.as_datastar_event()
    }
}

// The event is pinned by the clauses of `from`: no spec expression can make
// the strings that an event holds.
impl FromSpecImpl<&ExecuteScript> for DatastarEvent {
    open spec fn obeys_from_spec() -> bool {
        false
    }

    open spec fn from_spec(val: &ExecuteScript) -> DatastarEvent {
        arbitrary()
    }
}

/// Written to the wire and read back, a well-formed script is recovered as
/// the patch that it stands for: the data lines of the text, read by their
/// keys, give the selector `body`, the mode that appends, no view
/// transition, and the script element line by line.
pub proof fn script_round_trip(exec: ExecuteScript)
    requires
        exec.wf(),
    ensures
        read_elements(payloads(pieces(wire_text(exec.event())), "data: "@)) == (ElementsRead {
            selector: Some("body"@),
            mode: ElementPatchMode::Append,
            use_view_transition: false,
            markup: script_element(exec.script@, exec.auto_remove, views(exec.attributes@)),
        }),
{
    exec.event_is_well_formed();
    text_read_back(exec.event());
    lemma_mode_tokens();
    reveal_strlit("selector");
    reveal_strlit("mode");
    reveal_strlit("useViewTransition");
    reveal_strlit("elements");
    let s = SELECTOR_DATALINE_LITERAL@;
    let m = MODE_DATALINE_LITERAL@;
    let u = crate::consts::USE_VIEW_TRANSITION_DATALINE_LITERAL@;
    let e = ELEMENTS_DATALINE_LITERAL@;
    let token = ElementPatchMode::Append.token();
    let element = script_element(exec.script@, exec.auto_remove, views(exec.attributes@));
    let a = seq![data_line(s, "body"@)];
    let b = seq![data_line(m, token)];
    let c = data_lines(e, element);
    assert(exec.data() =~= a + b + c);
    assert forall|key: Seq<char>| #![trigger values_under(exec.data(), key)]
        values_under(exec.data(), key) == values_under(a, key) + values_under(b, key)
            + values_under(c, key) by {
        lemma_payloads_concat(a, b, key.push(' '));
        lemma_payloads_concat(a + b, c, key.push(' '));
    }
    lemma_read_own_key(s, "body"@);
    lemma_read_other_key(s, "body"@, m);
    lemma_read_other_key(s, "body"@, u);
    lemma_read_other_key(s, "body"@, e);
    lemma_read_own_key(m, token);
    lemma_read_other_key(m, token, s);
    lemma_read_other_key(m, token, u);
    lemma_read_other_key(m, token, e);
    lemma_read_own_lines(e, element);
    lemma_read_other_lines(e, element, s);
    lemma_read_other_lines(e, element, m);
    lemma_read_other_lines(e, element, u);
    assert(values_under(exec.data(), s) =~= seq!["body"@]);
    assert(values_under(exec.data(), m) =~= seq![token]);
    assert(values_under(exec.data(), u) =~= Seq::<Seq<char>>::empty());
    assert(values_under(exec.data(), e) =~= element);
}

} // verus!
