//! The frames that the server-sent-event types of axum, warp and Rocket are
//! built from.
//!
//! Each of the three frameworks has an event type of its own, with a builder
//! that takes the kind, the id, the retry interval and the data of an event
//! and writes the lines itself, one `data` line for each line of the data it
//! is given. A frame holds what is handed to such a builder.

use crate::consts::DEFAULT_SSE_RETRY_DURATION;
use crate::duration::whole_millis;
use crate::execute_script::ExecuteScript;
use crate::patch_elements::PatchElements;
use crate::patch_signals::PatchSignals;
use crate::text::{
    lemma_pieces_concat, lemma_pieces_of_single_line, pieces, single_line, single_lines,
};
use crate::wire::EventView;
use crate::{opt_view, DatastarEvent};
use core::time::Duration;
use vstd::prelude::*;
use vstd::string::StringExecFns;

verus! {

/// What a frame holds: the token of the kind, the replay id, the retry
/// interval in whole milliseconds where one is to be written, and the data as
/// one text.
pub struct FrameView {
    pub event: Seq<char>,
    pub id: Option<Seq<char>>,
    pub retry: Option<nat>,
    pub data: Seq<char>,
}

/// What is handed to the event builder of a framework.
#[derive(Debug)]
pub struct SseEvent {
    /// The token of the kind of the event.
    pub event: String,
    /// The replay id, where the event has one.
    pub id: Option<String>,
    /// The retry interval, where one is to be written.
    pub retry: Option<Duration>,
    /// The data lines, with a line feed between each two of them.
    pub data: String,
}

impl View for SseEvent {
    type V = FrameView;

    open spec fn view(&self) -> FrameView {
        FrameView {
            event: self.event@,
            id: opt_view(self.id),
            retry: match self.retry {
                Some(retry) => Some(whole_millis(retry)),
                None => None,
            },
            data: self.data@,
        }
    }
}

/// The members of `ls` one after the other, with a line feed between each two
/// of them.
pub open spec fn joined(ls: Seq<Seq<char>>) -> Seq<char>
    decreases ls.len(),
{
    if ls.len() == 0 {
        Seq::empty()
    } else if ls.len() == 1 {
        ls[0]
    } else {
        joined(ls.drop_last()).push('\n') + ls.last()
    }
}

/// The frame of an event. It holds the retry interval only where it is not
/// the one that a client assumes, so that no builder writes a `retry` line
/// for the default.
pub open spec fn frame(ev: EventView) -> FrameView {
    FrameView {
        event: ev.event.token(),
        id: ev.id,
        retry: if ev.retry != DEFAULT_SSE_RETRY_DURATION {
            Some(ev.retry)
        } else {
            None
        },
        data: joined(ev.data),
    }
}

impl DatastarEvent {
    /// The data lines as one text, with a line feed between each two of them.
    fn joined_data(&self) -> (data: String)
        ensures
            data@ == joined(self@.data),
    {
        let mut data = String::new();
        let n = self.data.len();
        let mut i: usize = 0;
        assert(self@.data.take(0) =~= Seq::<Seq<char>>::empty());
        while i < n
            invariant
                i <= n,
                n == self.data.len(),
                data@ == joined(self@.data.take(i as int)),
            decreases n - i,
        {
            if i > 0 {
                data.push('\n');
            }
            data.append(self.data[i].as_str());
            proof {
                let grown = self@.data.take(i + 1);
                assert(grown.drop_last() =~= self@.data.take(i as int));
                assert(grown.last() == self.data[i as int]@);
                if i == 0 {
                    assert(data@ =~= grown[0]);
                }
            }
            i += 1;
        }
        assert(self@.data.take(n as int) =~= self@.data);
        data
    }

    /// The replay id, copied.
    fn copied_id(&self) -> (id: Option<String>)
        ensures
            opt_view(id) == self@.id,
    {
        match &self.id {
            Some(id) => Some(id.clone()),
            None => None,
        }
    }

    /// The frame with the retry interval left out where it is the one that a
    /// client assumes.
    fn to_frame(&self) -> (out: SseEvent)
        ensures
            out@ == frame(self@),
            out.retry matches Some(retry) ==> retry == self.retry,
    {
        let retry = if self.retry.as_millis() != DEFAULT_SSE_RETRY_DURATION as u128 {
            Some(self.retry)
        } else {
            None
        };
        SseEvent {
            event: self.event.as_str().to_owned(),
            id: self.copied_id(),
            retry,
            data: self.joined_data(),
        }
    }

    /// The frame of this event for axum's `Event`.
    pub fn write_as_axum_sse_event(&self) -> (out: SseEvent)
        ensures
            out@ == frame(self@),
            out.retry matches Some(retry) ==> retry == self.retry,
    {
        self.to_frame()
    }

    /// The frame of this event for warp's `Event`.
    pub fn write_as_warp_sse_event(&self) -> (out: SseEvent)
        ensures
            out@ == frame(self@),
            out.retry matches Some(retry) ==> retry == self.retry,
    {
        self.to_frame()
    }

    /// The frame of this event for Rocket's `Event`.
    pub fn write_as_rocket_sse_event(&self) -> (out: SseEvent)
        ensures
            out@ == frame(self@),
            out.retry matches Some(retry) ==> retry == self.retry,
    {
        self.to_frame()
    }
}

impl PatchElements {
    /// The frame of this patch for axum's `Event`.
    pub fn write_as_axum_sse_event(&self) -> (out: SseEvent)
        ensures
            out@ == frame(self.event()),
            out.retry matches Some(retry) ==> retry == self.retry,
    {
        self.as_datastar_event().write_as_axum_sse_event()
    }

    /// The frame of this patch for warp's `Event`.
    pub fn write_as_warp_sse_event(&self) -> (out: SseEvent)
        ensures
            out@ == frame(self.event()),
            out.retry matches Some(retry) ==> retry == self.retry,
    {
        self.as_datastar_event().write_as_warp_sse_event()
    }

    /// The frame of this patch for Rocket's `Event`.
    pub fn write_as_rocket_sse_event(&self) -> (out: SseEvent)
        ensures
            out@ == frame(self.event()),
            out.retry matches Some(retry) ==> retry == self.retry,
    {
        self.as_datastar_event().write_as_rocket_sse_event()
    }
}

impl PatchSignals {
    /// The frame of this patch for axum's `Event`.
    pub fn write_as_axum_sse_event(&self) -> (out: SseEvent)
        ensures
            out@ == frame(self.event()),
            out.retry matches Some(retry) ==> retry == self.retry,
    {
        self.as_datastar_event().write_as_axum_sse_event()
    }

    /// The frame of this patch for warp's `Event`.
    pub fn write_as_warp_sse_event(&self) -> (out: SseEvent)
        ensures
            out@ == frame(self.event()),
            out.retry matches Some(retry) ==> retry == self.retry,
    {
        self.as_datastar_event().write_as_warp_sse_event()
    }

    /// The frame of this patch for Rocket's `Event`.
    pub fn write_as_rocket_sse_event(&self) -> (out: SseEvent)
        ensures
            out@ == frame(self.event()),
            out.retry matches Some(retry) ==> retry == self.retry,
    {
        self.as_datastar_event().write_as_rocket_sse_event()
    }
}

impl ExecuteScript {
    /// The frame of this script for axum's `Event`.
    pub fn write_as_axum_sse_event(&self) -> (out: SseEvent)
        ensures
            out@ == frame(self.event()),
            out.retry matches Some(retry) ==> retry == self.retry,
    {
        self.as_datastar_event().write_as_axum_sse_event()
    }

    /// The frame of this script for warp's `Event`.
    pub fn write_as_warp_sse_event(&self) -> (out: SseEvent)
        ensures
            out@ == frame(self.event()),
            out.retry matches Some(retry) ==> retry == self.retry,
    {
        self.as_datastar_event().write_as_warp_sse_event()
    }
}

/// A builder that splits the data of a frame at its line feeds writes one
/// `data` line for each data line of the event, none merged and none out of
/// order, as long as the event has a data line and none of them holds a line
/// feed.
pub proof fn joined_splits_back(ls: Seq<Seq<char>>)
    requires
        ls.len() > 0,
        single_lines(ls),
    ensures
        pieces(joined(ls)) == ls,
    decreases ls.len(),
{
    if ls.len() == 1 {
        lemma_pieces_of_single_line(ls[0]);
        assert(seq![ls[0]] =~= ls);
    } else {
        let front = ls.drop_last();
        assert forall|i: int| 0 <= i < front.len() implies single_line(#[trigger] front[i]) by {
            assert(front[i] == ls[i]);
        }
        joined_splits_back(front);
        lemma_pieces_concat(joined(front), ls.last());
        assert(single_line(ls[ls.len() - 1]));
        lemma_pieces_of_single_line(ls.last());
        assert(front + seq![ls.last()] =~= ls);
    }
}

} // verus!
