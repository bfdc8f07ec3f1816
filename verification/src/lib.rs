//! Server-side encoding of Datastar server-sent events, and extraction of the
//! signals a Datastar client sends along with its requests.

pub mod consts;
pub mod duration;
pub mod execute_script;
pub mod patch_elements;
pub mod patch_signals;
pub mod prelude;
pub mod signals;
pub mod sse;
pub mod text;
pub mod wire;

use crate::consts::{EventType, DEFAULT_SSE_RETRY_DURATION};
use crate::duration::whole_millis;
use crate::text::{prefixed, push_decimal, views};
use crate::wire::{
    id_lines, lemma_terminated_push, retry_lines, terminated, wire_lines, wire_text,
    EventView,
};
use core::time::Duration;
use vstd::prelude::*;
use vstd::string::StringExecFns;

verus! {

/// The characters of `s`, where there is a string.
pub open spec fn opt_view(s: Option<String>) -> Option<Seq<char>> {
    match s {
        Some(s) => Some(s@),
        None => None,
    }
}

/// One event of the protocol, as every kind of update is written before it is
/// sent.
#[derive(Debug)]
pub struct DatastarEvent {
    /// The kind of the event.
    pub event: EventType,
    /// An id by which a client that reconnects can ask for the events it missed.
    pub id: Option<String>,
    /// How long a client waits before it reconnects after the connection is lost.
    pub retry: Duration,
    /// The data lines of the event, in order. None of them may hold a line feed.
    pub data: Vec<String>,
}

impl View for DatastarEvent {
    type V = EventView;

    open spec fn view(&self) -> EventView {
        EventView {
            event: self.event,
            id: opt_view(self.id),
            retry: whole_millis(self.retry),
            data: views(self.data@),
        }
    }
}

impl DatastarEvent {
    /// Whether neither the replay id nor any data line holds a line feed.
    pub open spec fn wf(&self) -> bool {
        self@.wf()
    }

    /// The text of this event on the wire.
    pub fn encode(&self) -> (text: String)
        ensures
            text@ == wire_text(self@),
    {
        let mut out = String::new();
        let ghost mut written: Seq<Seq<char>> = Seq::empty();
        out.append("event: ");
        out.append(self.event.as_str());
        out.push('\n');
        proof {
            lemma_terminated_push(written, "event: "@ + self.event.token());
            written = written.push("event: "@ + self.event.token());
            assert(out@ =~= terminated(written));
            assert(written =~= seq!["event: "@ + self.event.token()]);
        }
        match &self.id {
            Some(id) => {
                out.append("id: ");
                out.append(id.as_str());
                out.push('\n');
                proof {
                    lemma_terminated_push(written, "id: "@ + id@);
                    written = written.push("id: "@ + id@);
                    assert(out@ =~= terminated(written));
                }
            },
            None => {},
        }
        assert(written =~= seq!["event: "@ + self.event.token()] + id_lines(self@.id));
        let millis = self.retry.as_millis();
        if millis != DEFAULT_SSE_RETRY_DURATION as u128 {
            out.append("retry: ");
            push_decimal(&mut out, millis);
            out.push('\n');
            proof {
                lemma_terminated_push(written, "retry: "@ + crate::text::decimal(millis as nat));
                written = written.push("retry: "@ + crate::text::decimal(millis as nat));
                assert(out@ =~= terminated(written));
            }
        }
        let ghost head = seq!["event: "@ + self.event.token()] + id_lines(self@.id) + retry_lines(
            self@.retry,
        );
        assert(written =~= head);
        let n = self.data.len();
        let mut i: usize = 0;
        while i < n
            invariant
                i <= n,
                n == self.data.len(),
                out@ == terminated(written),
                written == head + prefixed("data: "@, self@.data.take(i as int)),
            decreases n - i,
        {
            out.append("data: ");
            out.append(self.data[i].as_str());
            out.push('\n');
            proof {
                let line = "data: "@ + self.data[i as int]@;
                lemma_terminated_push(written, line);
                written = written.push(line);
                assert(out@ =~= terminated(written));
                assert(written =~= head + prefixed("data: "@, self@.data.take(i + 1)));
            }
            i += 1;
        }
        out.push('\n');
        proof {
            assert(self@.data.take(n as int) =~= self@.data);
            assert(written == wire_lines(self@));
        }
        out
    }
}

} // verus!
