//! The fixed vocabulary of the protocol: event kinds, patch modes, data-line
//! prefixes and default values.

use vstd::prelude::*;

verus! {

/// Name of the query parameter that carries the signals of a `GET` request.
pub const DATASTAR_KEY: &'static str = "datastar";

/// Name of the request header that marks a request as sent by a Datastar client.
pub const DATASTAR_REQ_HEADER_STR: &'static str = "datastar-request";

/// The reconnect delay, in milliseconds, that a client assumes when an event
/// carries no `retry` line.
pub const DEFAULT_SSE_RETRY_DURATION: u64 = 1000;

/// Whether elements are patched with a view transition when nothing is said.
pub const DEFAULT_ELEMENTS_USE_VIEW_TRANSITIONS: bool = false;

/// Whether signals are patched only where missing when nothing is said.
pub const DEFAULT_PATCH_SIGNALS_ONLY_IF_MISSING: bool = false;

/// Prefix of the data line that carries a CSS selector.
pub const SELECTOR_DATALINE_LITERAL: &'static str = "selector";

/// Prefix of the data line that carries the patch mode.
pub const MODE_DATALINE_LITERAL: &'static str = "mode";

/// Prefix of a data line that carries one line of markup.
pub const ELEMENTS_DATALINE_LITERAL: &'static str = "elements";

/// Prefix of the data line that carries the view-transition flag.
pub const USE_VIEW_TRANSITION_DATALINE_LITERAL: &'static str = "useViewTransition";

/// Prefix of a data line that carries one line of signals.
pub const SIGNALS_DATALINE_LITERAL: &'static str = "signals";

/// Prefix of the data line that carries the only-if-missing flag.
pub const ONLY_IF_MISSING_DATALINE_LITERAL: &'static str = "onlyIfMissing";

/// How a fragment of markup is merged into the document.
#[derive(Debug, Clone, Copy, PartialEq, Eq, Hash, Structural)]
pub enum ElementPatchMode {
    /// Morph the outer HTML of the target (what a client does by default).
    Outer,
    /// Morph the inner HTML of the target.
    Inner,
    /// Remove the target.
    Remove,
    /// Replace the outer HTML of the target without morphing.
    Replace,
    /// Insert before the first child of the target.
    Prepend,
    /// Insert after the last child of the target.
    Append,
    /// Insert before the target, as a sibling.
    Before,
    /// Insert after the target, as a sibling.
    After,
}

impl ElementPatchMode {
    /// The token that stands for this mode on the wire.
    pub open spec fn token(self) -> Seq<char> {
        match self {
            ElementPatchMode::Outer => "outer"@,
            ElementPatchMode::Inner => "inner"@,
            ElementPatchMode::Remove => "remove"@,
            ElementPatchMode::Replace => "replace"@,
            ElementPatchMode::Prepend => "prepend"@,
            ElementPatchMode::Append => "append"@,
            ElementPatchMode::Before => "before"@,
            ElementPatchMode::After => "after"@,
        }
    }

    /// The token that stands for this mode on the wire.
    pub fn as_str(&self) -> (token: &'static str)
        ensures
            token@ == self.token(),
    {
        match self {
            ElementPatchMode::Outer => "outer",
            ElementPatchMode::Inner => "inner",
            ElementPatchMode::Remove => "remove",
            ElementPatchMode::Replace => "replace",
            ElementPatchMode::Prepend => "prepend",
            ElementPatchMode::Append => "append",
            ElementPatchMode::Before => "before",
            ElementPatchMode::After => "after",
        }
    }
}

impl Default for ElementPatchMode {
    fn default() -> (mode: Self)
        ensures
            mode == ElementPatchMode::Outer,
    {
        ElementPatchMode::Outer
    }
}

/// The kind of an event, which a client reads from its `event` line.
#[derive(Debug, Clone, Copy, PartialEq, Eq, Hash, Structural)]
pub enum EventType {
    /// An event that patches elements into the document.
    PatchElements,
    /// An event that patches signals into the client's store.
    PatchSignals,
}

impl EventType {
    /// The token that stands for this kind on the wire.
    pub open spec fn token(self) -> Seq<char> {
        match self {
            EventType::PatchElements => "datastar-patch-elements"@,
            EventType::PatchSignals => "datastar-patch-signals"@,
        }
    }

    /// The token that stands for this kind on the wire.
    pub fn as_str(&self) -> (token: &'static str)
        ensures
            token@ == self.token(),
    {
        match self {
            EventType::PatchElements => "datastar-patch-elements",
            EventType::PatchSignals => "datastar-patch-signals",
        }
    }
}

} // verus!
