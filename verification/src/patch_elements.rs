//! [`PatchElements`] patches HTML elements into the document.

use crate::consts::{
    ElementPatchMode, EventType, DEFAULT_ELEMENTS_USE_VIEW_TRANSITIONS, DEFAULT_SSE_RETRY_DURATION,
    ELEMENTS_DATALINE_LITERAL, MODE_DATALINE_LITERAL, SELECTOR_DATALINE_LITERAL,
    USE_VIEW_TRANSITION_DATALINE_LITERAL,
};
use crate::duration::whole_millis;
use crate::text::{
    data_line, data_lines, flag_str, flag_text, lemma_data_lines_single, lemma_lines_single_line,
    lemma_payloads_concat, lemma_read_other_key, lemma_read_other_lines, lemma_read_own_key,
    lemma_read_own_lines, lines, make_data_line, payloads, pieces, single_line, split_lines,
    value_under, values_under, views,
};
use crate::wire::{text_read_back, wire_text, EventView};
use crate::{opt_view, DatastarEvent};
use core::time::Duration;
use vstd::prelude::*;
use vstd::std_specs::convert::FromSpecImpl;

verus! {

/// The data line that names the target of a patch, if a selector is given.
pub open spec fn selector_lines(selector: Option<Seq<char>>) -> Seq<Seq<char>> {
    match selector {
        Some(selector) => seq![data_line(SELECTOR_DATALINE_LITERAL@, selector)],
        None => Seq::empty(),
    }
}

/// The data line that names the patch mode, unless it is the mode that a
/// client assumes.
pub open spec fn mode_lines(mode: ElementPatchMode) -> Seq<Seq<char>> {
    if mode != ElementPatchMode::Outer {
        seq![data_line(MODE_DATALINE_LITERAL@, mode.token())]
    } else {
        Seq::empty()
    }
}

/// The data line that carries the view-transition flag, unless it has the
/// value that a client assumes.
pub open spec fn view_transition_lines(flag: bool) -> Seq<Seq<char>> {
    if flag != DEFAULT_ELEMENTS_USE_VIEW_TRANSITIONS {
        seq![data_line(USE_VIEW_TRANSITION_DATALINE_LITERAL@, flag_text(flag))]
    } else {
        Seq::empty()
    }
}

/// One data line for each line of the markup, in order; none where there is
/// no markup.
pub open spec fn markup_lines(elements: Option<Seq<char>>) -> Seq<Seq<char>> {
    match elements {
        Some(markup) => data_lines(ELEMENTS_DATALINE_LITERAL@, lines(markup)),
        None => Seq::empty(),
    }
}

/// The mode that a token stands for; the mode that a client assumes where
/// the token stands for none.
pub open spec fn mode_of_token(token: Seq<char>) -> ElementPatchMode {
    if token == ElementPatchMode::Inner.token() {
        ElementPatchMode::Inner
    } else if token == ElementPatchMode::Remove.token() {
        ElementPatchMode::Remove
    } else if token == ElementPatchMode::Replace.token() {
        ElementPatchMode::Replace
    } else if token == ElementPatchMode::Prepend.token() {
        ElementPatchMode::Prepend
    } else if token == ElementPatchMode::Append.token() {
        ElementPatchMode::Append
    } else if token == ElementPatchMode::Before.token() {
        ElementPatchMode::Before
    } else if token == ElementPatchMode::After.token() {
        ElementPatchMode::After
    } else {
        ElementPatchMode::Outer
    }
}

/// What a client takes from the data lines of an event that patches
/// elements, reading each line by the key it begins with.
pub struct ElementsRead {
    pub selector: Option<Seq<char>>,
    pub mode: ElementPatchMode,
    pub use_view_transition: bool,
    pub markup: Seq<Seq<char>>,
}

/// Reads the data lines of an event that patches elements. A key without a
/// line stands for what a client assumes.
pub open spec fn read_elements(data: Seq<Seq<char>>) -> ElementsRead {
    ElementsRead {
        selector: value_under(data, SELECTOR_DATALINE_LITERAL@),
        mode: match value_under(data, MODE_DATALINE_LITERAL@) {
            Some(token) => mode_of_token(token),
            None => ElementPatchMode::Outer,
        },
        use_view_transition: match value_under(data, USE_VIEW_TRANSITION_DATALINE_LITERAL@) {
            Some(text) => text == flag_text(true),
            None => DEFAULT_ELEMENTS_USE_VIEW_TRANSITIONS,
        },
        markup: values_under(data, ELEMENTS_DATALINE_LITERAL@),
    }
}

/// The tokens of the modes hold no line feed, and no two modes share a token.
pub proof fn lemma_mode_tokens()
    ensures
        forall|mode: ElementPatchMode| single_line(#[trigger] mode.token()),
        forall|mode: ElementPatchMode| mode_of_token(#[trigger] mode.token()) == mode,
{
    reveal_strlit("outer");
    reveal_strlit("inner");
    reveal_strlit("remove");
    reveal_strlit("replace");
    reveal_strlit("prepend");
    reveal_strlit("append");
    reveal_strlit("before");
    reveal_strlit("after");
    let all = seq![
        "outer"@,
        "inner"@,
        "remove"@,
        "replace"@,
        "prepend"@,
        "append"@,
        "before"@,
        "after"@,
    ];
    assert forall|i: int, j: int| 0 <= i < j < all.len() implies all[i] != all[j] by {
        if all[i].len() == all[j].len() {
            assert(all[i][0] != all[j][0] || all[i][1] != all[j][1]);
        }
    }
    assert("outer"@ == all[0] && "inner"@ == all[1] && "remove"@ == all[2] && "replace"@ == all[3]
        && "prepend"@ == all[4] && "append"@ == all[5] && "before"@ == all[6] && "after"@
        == all[7]);
    assert forall|mode: ElementPatchMode| mode_of_token(#[trigger] mode.token()) == mode by {
        match mode {
            ElementPatchMode::Outer => {},
            ElementPatchMode::Inner => {},
            ElementPatchMode::Remove => {},
            ElementPatchMode::Replace => {},
            ElementPatchMode::Prepend => {},
            ElementPatchMode::Append => {},
            ElementPatchMode::Before => {},
            ElementPatchMode::After => {},
        }
    }
}

/// [`PatchElements`] patches HTML elements into the document.
#[derive(Debug, Clone, PartialEq, Eq, Hash)]
pub struct PatchElements {
    /// An id by which a client that reconnects can ask for the events it missed.
    pub id: Option<String>,
    /// How long a client waits before it reconnects after the connection is lost.
    pub retry: Duration,
    /// The markup to patch into the document; `None` where elements are removed.
    pub elements: Option<String>,
    /// The CSS selector of the target. Without one, a client goes by the ids
    /// of the elements.
    pub selector: Option<String>,
    /// How the elements are merged into the document.
    pub mode: ElementPatchMode,
    /// Whether the patch is made inside a view transition.
    pub use_view_transition: bool,
}

impl PatchElements {
    /// The data lines of the event that this patch becomes: selector, mode
    /// and view-transition flag, each only where it is not what a client
    /// assumes, then the markup line by line.
    pub open spec fn data(&self) -> Seq<Seq<char>> {
        selector_lines(opt_view(self.selector)) + mode_lines(self.mode) + view_transition_lines(
            self.use_view_transition,
        ) + markup_lines(opt_view(self.elements))
    }

    /// The event that this patch becomes when it is sent under the replay id `id`.
    pub open spec fn event_with(&self, id: Option<Seq<char>>) -> EventView {
        EventView {
            event: EventType::PatchElements,
            id,
            retry: whole_millis(self.retry),
            data: self.data(),
        }
    }

    /// The event that this patch becomes.
    pub open spec fn event(&self) -> EventView {
        self.event_with(opt_view(self.id))
    }

    /// A patch is well formed when neither its replay id nor its selector
    /// holds a line feed. The markup may hold any number of them.
    pub open spec fn wf(&self) -> bool {
        &&& self.id matches Some(id) ==> single_line(id@)
        &&& self.selector matches Some(selector) ==> single_line(selector@)
    }

    /// A well-formed patch becomes a well-formed event: the markup is split
    /// at its line feeds, so no data line holds one.
    pub proof fn event_is_well_formed(&self)
        requires
            self.wf(),
        ensures
            self.event().wf(),
    {
        reveal_strlit("selector");
        reveal_strlit("mode");
        reveal_strlit("useViewTransition");
        reveal_strlit("elements");
        reveal_strlit("true");
        reveal_strlit("false");
        lemma_mode_tokens();
        match opt_view(self.elements) {
            Some(markup) => {
                lemma_lines_single_line(markup);
                lemma_data_lines_single(ELEMENTS_DATALINE_LITERAL@, lines(markup));
            },
            None => {},
        }
        let head = selector_lines(opt_view(self.selector)) + mode_lines(self.mode)
            + view_transition_lines(self.use_view_transition);
        let tail = markup_lines(opt_view(self.elements));
        let data = self.data();
        assert forall|i: int| 0 <= i < data.len() implies single_line(#[trigger] data[i]) by {
            if i < head.len() {
                assert(data[i] == head[i]);
            } else {
                assert(data[i] == tail[i - head.len()]);
            }
        }
    }

    /// A patch of the given markup, with everything else as a client assumes it.
    pub fn new(elements: &str) -> (patch: Self)
        ensures
            patch.id is None,
            whole_millis(patch.retry) == DEFAULT_SSE_RETRY_DURATION,
            opt_view(patch.elements) == Some(elements@),
            patch.selector is None,
            patch.mode == ElementPatchMode::Outer,
            patch.use_view_transition == DEFAULT_ELEMENTS_USE_VIEW_TRANSITIONS,
            patch.wf(),
    {
        PatchElements {
            id: None,
            retry: Duration::from_millis(DEFAULT_SSE_RETRY_DURATION),
            elements: Some(elements.to_owned()),
            selector: None,
            mode: ElementPatchMode::default(),
            use_view_transition: DEFAULT_ELEMENTS_USE_VIEW_TRANSITIONS,
        }
    }

    /// A patch that removes the elements that `selector` matches.
    pub fn new_remove(selector: &str) -> (patch: Self)
        ensures
            patch.id is None,
            whole_millis(patch.retry) == DEFAULT_SSE_RETRY_DURATION,
            patch.elements is None,
            opt_view(patch.selector) == Some(selector@),
            patch.mode == ElementPatchMode::Remove,
            patch.use_view_transition == DEFAULT_ELEMENTS_USE_VIEW_TRANSITIONS,
    {
        PatchElements {
            id: None,
            retry: Duration::from_millis(DEFAULT_SSE_RETRY_DURATION),
            elements: None,
            selector: Some(selector.to_owned()),
            mode: ElementPatchMode::Remove,
            use_view_transition: DEFAULT_ELEMENTS_USE_VIEW_TRANSITIONS,
        }
    }

    /// The same patch under the replay id `id`.
    pub fn id(self, id: &str) -> (patch: Self)
        ensures
            opt_view(patch.id) == Some(id@),
            patch.retry == self.retry,
            patch.elements == self.elements,
            patch.selector == self.selector,
            patch.mode == self.mode,
            patch.use_view_transition == self.use_view_transition,
    {
        PatchElements { id: Some(id.to_owned()), ..self }
    }

    /// The same patch with the retry interval `retry`.
    pub fn retry(self, retry: Duration) -> (patch: Self)
        ensures
            patch.id == self.id,
            patch.retry == retry,
            patch.elements == self.elements,
            patch.selector == self.selector,
            patch.mode == self.mode,
            patch.use_view_transition == self.use_view_transition,
    {
        PatchElements { retry, ..self }
    }

    /// The same patch aimed at what `selector` matches.
    pub fn selector(self, selector: &str) -> (patch: Self)
        ensures
            patch.id == self.id,
            patch.retry == self.retry,
            patch.elements == self.elements,
            opt_view(patch.selector) == Some(selector@),
            patch.mode == self.mode,
            patch.use_view_transition == self.use_view_transition,
    {
        PatchElements { selector: Some(selector.to_owned()), ..self }
    }

    /// The same patch made in the mode `mode`.
    pub fn mode(self, mode: ElementPatchMode) -> (patch: Self)
        ensures
            patch.id == self.id,
            patch.retry == self.retry,
            patch.elements == self.elements,
            patch.selector == self.selector,
            patch.mode == mode,
            patch.use_view_transition == self.use_view_transition,
    {
        PatchElements { mode, ..self }
    }

    /// The same patch made inside a view transition, or not.
    pub fn use_view_transition(self, use_view_transition: bool) -> (patch: Self)
        ensures
            patch.id == self.id,
            patch.retry == self.retry,
            patch.elements == self.elements,
            patch.selector == self.selector,
            patch.mode == self.mode,
            patch.use_view_transition == use_view_transition,
    {
        PatchElements { use_view_transition, ..self }
    }

    /// Turns this patch into the event that is sent for it.
    pub fn into_datastar_event(self) -> (ev: DatastarEvent)
        ensures
            ev@ == self.event(),
            ev.retry == self.retry,
            self.wf() ==> ev.wf(),
    {
        proof {
            if self.wf() {
                self.event_is_well_formed();
            }
        }
        let mut patch = self;
        let id = patch.id.take();
        patch.convert_to_datastar_event_inner(id)
    }

    /// The event that is sent for this patch.
    pub fn as_datastar_event(&self) -> (ev: DatastarEvent)
        ensures
            ev@ == self.event(),
            ev.retry == self.retry,
            self.wf() ==> ev.wf(),
    {
        proof {
            if self.wf() {
                self.event_is_well_formed();
            }
        }
        self.convert_to_datastar_event_inner(self.id.clone())
    }

    fn convert_to_datastar_event_inner(&self, id: Option<String>) -> (ev: DatastarEvent)
        ensures
            ev@ == self.event_with(opt_view(id)),
            ev.retry == self.retry,
    {
        let mut data: Vec<String> = Vec::new();
        if let Some(selector) = &self.selector {
            data.push(make_data_line(SELECTOR_DATALINE_LITERAL, selector.as_str()));
        }
        assert(views(data@) =~= selector_lines(opt_view(self.selector)));
        if self.mode != ElementPatchMode::default() {
            data.push(make_data_line(MODE_DATALINE_LITERAL, self.mode.as_str()));
        }
        assert(views(data@) =~= selector_lines(opt_view(self.selector)) + mode_lines(self.mode));
        if self.use_view_transition != DEFAULT_ELEMENTS_USE_VIEW_TRANSITIONS {
            data.push(
                make_data_line(
                    USE_VIEW_TRANSITION_DATALINE_LITERAL,
                    flag_str(self.use_view_transition),
                ),
            );
        }
        let ghost head = selector_lines(opt_view(self.selector)) + mode_lines(self.mode)
            + view_transition_lines(self.use_view_transition);
        assert(views(data@) =~= head);
        if let Some(elements) = &self.elements {
            let markup = split_lines(elements.as_str());
            let n = markup.len();
            let mut i: usize = 0;
            while i < n
                invariant
                    i <= n,
                    n == markup.len(),
                    views(markup@) == lines(elements@),
                    views(data@) == head + data_lines(
                        ELEMENTS_DATALINE_LITERAL@,
                        lines(elements@).take(i as int),
                    ),
                decreases n - i,
            {
                let ghost before = views(data@);
                let line = make_data_line(ELEMENTS_DATALINE_LITERAL, markup[i].as_str());
                let ghost added = line@;
                data.push(line);
                proof {
                    assert(views(markup@)[i as int] == markup[i as int]@);
                    assert(views(data@) =~= before.push(added));
                    assert(views(data@) =~= head + data_lines(
                        ELEMENTS_DATALINE_LITERAL@,
                        lines(elements@).take(i + 1),
                    ));
                }
                i += 1;
            }
            assert(lines(elements@).take(n as int) =~= lines(elements@));
        }
        assert(views(data@) =~= self.data());
        DatastarEvent { event: EventType::PatchElements, id, retry: self.retry, data }
    }
}

impl From<PatchElements> for DatastarEvent {
    /// Turns a patch into the event that is sent for it.
    fn from(val: PatchElements) -> (ev: DatastarEvent)
        ensures
            ev@ == val.event(),
            ev.retry == val.retry,
            val.wf() ==> ev.wf(),
    {
        val.into_datastar_event()
    }
}

// The event is pinned by the clauses of `from`: no spec expression can make
// the strings that an event holds.
impl FromSpecImpl<PatchElements> for DatastarEvent {
    open spec fn obeys_from_spec() -> bool {
        false
    }

    open spec fn from_spec(val: PatchElements) -> DatastarEvent {
        arbitrary()
    }
}

impl From<&PatchElements> for DatastarEvent {
    /// The event that is sent for a patch.
    fn from(val: &PatchElements) -> (ev: DatastarEvent)
        ensures
            ev@ == val.event(),
            ev.retry == val.retry,
            val.wf() ==> ev.wf(),
    {
        val.as_datastar_event()
    }
}

// The event is pinned by the clauses of `from`: no spec expression can make
// the strings that an event holds.
impl FromSpecImpl<&PatchElements> for DatastarEvent {
    open spec fn obeys_from_spec() -> bool {
        false
    }

    open spec fn from_spec(val: &PatchElements) -> DatastarEvent {
        arbitrary()
    }
}

/// What is read from the data lines of a patch, key by key.
proof fn lemma_read_patch_data(patch: PatchElements)
    ensures
        values_under(patch.data(), SELECTOR_DATALINE_LITERAL@) == match opt_view(patch.selector) {
            Some(selector) => seq![selector],
            None => Seq::empty(),
        },
        values_under(patch.data(), MODE_DATALINE_LITERAL@) == if patch.mode
            != ElementPatchMode::Outer {
            seq![patch.mode.token()]
        } else {
            Seq::empty()
        },
        values_under(patch.data(), USE_VIEW_TRANSITION_DATALINE_LITERAL@)
            == if patch.use_view_transition {
            seq![flag_text(true)]
        } else {
            Seq::empty()
        },
        values_under(patch.data(), ELEMENTS_DATALINE_LITERAL@) == match opt_view(patch.elements) {
            Some(markup) => lines(markup),
            None => Seq::empty(),
        },
{
    reveal_strlit("selector");
    reveal_strlit("mode");
    reveal_strlit("useViewTransition");
    reveal_strlit("elements");
    let s = SELECTOR_DATALINE_LITERAL@;
    let m = MODE_DATALINE_LITERAL@;
    let u = USE_VIEW_TRANSITION_DATALINE_LITERAL@;
    let e = ELEMENTS_DATALINE_LITERAL@;
    let a = selector_lines(opt_view(patch.selector));
    let b = mode_lines(patch.mode);
    let c = view_transition_lines(patch.use_view_transition);
    let d = markup_lines(opt_view(patch.elements));
    let none = Seq::<Seq<char>>::empty();
    assert forall|key: Seq<char>| #![trigger values_under(patch.data(), key)]
        values_under(patch.data(), key) == values_under(a, key) + values_under(b, key)
            + values_under(c, key) + values_under(d, key) by {
        lemma_payloads_concat(a, b, key.push(' '));
        lemma_payloads_concat(a + b, c, key.push(' '));
        lemma_payloads_concat(a + b + c, d, key.push(' '));
    }
    assert forall|key: Seq<char>| #![trigger values_under(none, key)]
        values_under(none, key) == none by {}
    match opt_view(patch.selector) {
        Some(selector) => {
            lemma_read_own_key(s, selector);
            lemma_read_other_key(s, selector, m);
            lemma_read_other_key(s, selector, u);
            lemma_read_other_key(s, selector, e);
        },
        None => {},
    }
    if patch.mode != ElementPatchMode::Outer {
        lemma_read_own_key(m, patch.mode.token());
        lemma_read_other_key(m, patch.mode.token(), s);
        lemma_read_other_key(m, patch.mode.token(), u);
        lemma_read_other_key(m, patch.mode.token(), e);
    }
    if patch.use_view_transition {
        lemma_read_own_key(u, flag_text(true));
        lemma_read_other_key(u, flag_text(true), s);
        lemma_read_other_key(u, flag_text(true), m);
        lemma_read_other_key(u, flag_text(true), e);
    }
    match opt_view(patch.elements) {
        Some(markup) => {
            lemma_read_own_lines(e, lines(markup));
            lemma_read_other_lines(e, lines(markup), s);
            lemma_read_other_lines(e, lines(markup), m);
            lemma_read_other_lines(e, lines(markup), u);
        },
        None => {},
    }
    assert(values_under(patch.data(), s) =~= match opt_view(patch.selector) {
        Some(selector) => seq![selector],
        None => Seq::empty(),
    });
    assert(values_under(patch.data(), m) =~= if patch.mode != ElementPatchMode::Outer {
        seq![patch.mode.token()]
    } else {
        Seq::empty()
    });
    assert(values_under(patch.data(), u) =~= if patch.use_view_transition {
        seq![flag_text(true)]
    } else {
        Seq::empty()
    });
    assert(values_under(patch.data(), e) =~= match opt_view(patch.elements) {
        Some(markup) => lines(markup),
        None => Seq::empty(),
    });
}

/// Written to the wire and read back, a well-formed patch is recovered: the
/// data lines of the text, read by their keys, give the selector, the mode,
/// the view-transition flag and the lines of the markup of the patch.
pub proof fn elements_round_trip(patch: PatchElements)
    requires
        patch.wf(),
    ensures
        read_elements(payloads(pieces(wire_text(patch.event())), "data: "@)) == (ElementsRead {
            selector: opt_view(patch.selector),
            mode: patch.mode,
            use_view_transition: patch.use_view_transition,
            markup: match opt_view(patch.elements) {
                Some(markup) => lines(markup),
                None => Seq::empty(),
            },
        }),
{
    patch.event_is_well_formed();
    text_read_back(patch.event());
    lemma_read_patch_data(patch);
    lemma_mode_tokens();
}

} // verus!
