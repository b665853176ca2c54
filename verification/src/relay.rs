//! The two relays of a session.
//!
//! The output relay drains the master side of the pseudo-terminal and turns
//! what it reads into output events.  The input relay takes lines from the
//! input queue and writes them to the child.  Reading, writing and queueing
//! are the caller's; what to do with each result is decided here.

use crate::normalizer::{latin1, latin1_text, normalize, normalize_bytes};
use crate::session::{EventView, SessionEvent};
use vstd::prelude::*;

verus! {

/// What the output relay does after a read.
#[derive(Debug)]
pub enum OutputStep {
    /// Leave the loop.  The descriptor stays open: closing it is the
    /// supervisor's.
    Stop,
    /// Read again, without telling the consumer anything.
    Skip,
    /// Deliver this event, then read again.
    Forward { event: SessionEvent },
}

/// The mathematical value of an [`OutputStep`].
pub enum OutputStepView {
    Stop,
    Skip,
    Forward { event: EventView },
}

impl View for OutputStep {
    type V = OutputStepView;

    open spec fn view(&self) -> OutputStepView {
        match *self {
            OutputStep::Stop => OutputStepView::Stop,
            OutputStep::Skip => OutputStepView::Skip,
            OutputStep::Forward { event } => OutputStepView::Forward { event: event@ },
        }
    }
}

/// The output relay's rule.  `read` is `None` after a failed read and holds
/// the bytes read otherwise; no bytes mean the end of the stream.  A chunk
/// is normalized on its own and passed on unless nothing is left of it.
pub open spec fn output_rule(read: Option<Seq<u8>>) -> OutputStepView {
    match read {
        None => OutputStepView::Stop,
        Some(bytes) => if bytes.len() == 0 {
            OutputStepView::Stop
        } else if normalize(bytes).len() == 0 {
            OutputStepView::Skip
        } else {
            OutputStepView::Forward { event: EventView::Output { text: latin1(normalize(bytes)) } }
        },
    }
}

/// Decides what follows a read of the master descriptor.
pub fn output_step(read: Option<&[u8]>) -> (r: OutputStep)
    ensures
        r@ == output_rule(
            match read {
                Some(bytes) => Some(bytes@),
                None => None,
            },
        ),
{
    match read {
        None => OutputStep::Stop,
        Some(bytes) => {
            if bytes.len() == 0 {
                OutputStep::Stop
            } else {
                let clean = normalize_bytes(bytes);
                if clean.len() == 0 {
                    OutputStep::Skip
                } else {
                    OutputStep::Forward {
                        event: SessionEvent::Output { text: latin1_text(clean.as_slice()) },
                    }
                }
            }
        },
    }
}

/// Something that the input relay meets.
#[derive(Debug)]
pub enum InputNotice {
    /// A line arrived on the input queue.
    Line { line: String },
    /// The input queue was closed.
    QueueClosed,
    /// Writing to the child failed.
    WriteFailed,
}

/// What the input relay does next.
#[derive(Debug)]
pub enum InputStep {
    /// Write all of `data` to the duplicate of the master descriptor, flush,
    /// and wait for the next line.
    Write { data: String },
    /// Leave the loop and close the relay's duplicate.
    Stop,
}

/// A line as the child receives it: the text as typed, then a line feed.
pub open spec fn framed(line: Seq<char>) -> Seq<char> {
    line.push('\n')
}

/// The input relay's rule: a line is written verbatim with a line feed
/// after it; a closed queue or a failed write ends the relay.
pub open spec fn input_rule(notice: InputNotice) -> Option<Seq<char>> {
    match notice {
        InputNotice::Line { line } => Some(framed(line@)),
        InputNotice::QueueClosed => None,
        InputNotice::WriteFailed => None,
    }
}

/// Decides what the input relay does on `notice`.
pub fn input_step(notice: InputNotice) -> (r: InputStep)
    ensures
        match input_rule(notice) {
            Some(data) => r matches InputStep::Write { data: d } && d@ == data,
            None => r is Stop,
        },
{
    match notice {
        InputNotice::Line { line } => {
            let mut data = line;
            data.append("\n");
            proof {
                reveal_strlit("\n");
            }
            InputStep::Write { data }
        },
        InputNotice::QueueClosed => InputStep::Stop,
        InputNotice::WriteFailed => InputStep::Stop,
    }
}

} // verus!
