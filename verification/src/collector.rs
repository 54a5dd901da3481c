//! The collector: it takes the messages of an error and of its causes one by
//! one, makes a frame of each, and stops by itself when there are too many.
//!
//! Whoever holds the error asks it for its underlying cause and tells the
//! collector the answer, for as long as the collector is open.

use crate::decimal::{append_decimal, decimal};
use crate::frame::{frame_views, FrameView, Location, LocationView, StackFrame};
use vstd::prelude::*;
use vstd::string::StringExecFns;

verus! {

/// The most frames that a virtual stack holds for errors and their causes.
/// A chain that goes on after that many is cut, and one more frame says so.
pub const MAX_FRAMES: usize = 256;

/// The message of the frame that stands where a chain was cut.
pub open spec fn truncation_text() -> Seq<char> {
    "...chain truncated after "@ + decimal(MAX_FRAMES as nat) + " frames"@
}

/// The message of the frame that stands where a chain was cut.
pub fn truncation_message() -> (message: String)
    ensures
        message@ == truncation_text(),
{
    let mut message = String::from_str("...chain truncated after ");
    append_decimal(&mut message, MAX_FRAMES as u64);
    message.append(" frames");
    message
}

/// What is told to a collector: the message of the next underlying cause, or
/// that there is none.
pub open spec fn cause_text(cause: Option<String>) -> Option<Seq<char>> {
    match cause {
        Some(message) => Some(message@),
        None => None,
    }
}

/// A collector as mathematics sees it: the location that every frame gets,
/// the frames made so far, and whether it still takes causes.
pub struct CollectorView {
    pub location: LocationView,
    pub frames: Seq<FrameView>,
    pub open: bool,
}

impl CollectorView {
    /// What holds of every collector: it has the frame of the error itself,
    /// it never holds more than [`MAX_FRAMES`] frames and the one that marks
    /// a cut, it is closed once it holds that one, and every frame has the
    /// collector's location.
    pub open spec fn wf(self) -> bool {
        &&& 1 <= self.frames.len() <= MAX_FRAMES + 1
        &&& self.open ==> self.frames.len() <= MAX_FRAMES
        &&& forall|i: int|
            0 <= i < self.frames.len() ==> (#[trigger] self.frames[i]).location == self.location
    }

    /// The collector for an error with the given message, asked for at
    /// `location`: one frame, and open.
    pub open spec fn begun(location: LocationView, message: Seq<char>) -> CollectorView {
        CollectorView { location, frames: seq![FrameView { location, message }], open: true }
    }

    /// The collector after it was told `cause`.
    ///
    /// A closed collector stays as it is. An open one closes when there is no
    /// further cause. Given a cause, it adds the cause's frame while it holds
    /// fewer than [`MAX_FRAMES`] frames; holding that many, it adds the frame
    /// that marks the cut instead, and closes.
    pub open spec fn told(self, cause: Option<Seq<char>>) -> CollectorView {
        if !self.open {
            self
        } else {
            match cause {
                None => CollectorView { open: false, ..self },
                Some(message) => if self.frames.len() < MAX_FRAMES {
                    CollectorView {
                        frames: self.frames.push(FrameView { location: self.location, message }),
                        ..self
                    }
                } else {
                    CollectorView {
                        frames: self.frames.push(
                            FrameView { location: self.location, message: truncation_text() },
                        ),
                        open: false,
                        ..self
                    }
                },
            }
        }
    }

    /// How many more times an open collector can be told something before it
    /// is closed for certain; zero for a closed one.
    pub open spec fn room(self) -> nat {
        if self.open {
            (MAX_FRAMES + 1 - self.frames.len()) as nat
        } else {
            0
        }
    }
}

/// Collects the frames of one error: first that of the error itself, then
/// one for every cause it is told of.
pub struct Collector {
    location: Location,
    frames: Vec<StackFrame>,
    open: bool,
}

impl View for Collector {
    type V = CollectorView;

    closed spec fn view(&self) -> CollectorView {
        CollectorView { location: self.location@, frames: frame_views(self.frames@), open: self.open }
    }
}

impl Collector {
    #[verifier::type_invariant]
    spec fn well_formed(&self) -> bool {
        self@.wf()
    }

    /// Starts collecting for an error whose own message is `message`. Every
    /// frame, this first one and those of the causes, is given `location`.
    pub fn begin(location: Location, message: String) -> (collector: Collector)
        ensures
            collector@ == CollectorView::begun(location@, message@),
            collector@.wf(),
    {
        let mut frames: Vec<StackFrame> = Vec::new();
        frames.push(StackFrame::new(location, message));
        let collector = Collector { location, frames, open: true };
        assert(collector@.frames =~= seq![FrameView { location: location@, message: message@ }]);
        collector
    }

    /// Whether the collector still wants to be told of the next cause.
    pub fn is_open(&self) -> (open: bool)
        ensures
            open == self@.open,
            self@.wf(),
    {
        proof {
            use_type_invariant(self);
        }
        self.open
    }

    /// Tells the collector the message of the next underlying cause, or that
    /// there is none, and gives the collector as it is after that.
    pub fn record(self, cause: Option<String>) -> (next: Collector)
        ensures
            next@ == self@.told(cause_text(cause)),
            next@.wf(),
    {
        proof {
            use_type_invariant(&self);
        }
        let ghost before = self@;
        let Collector { location, mut frames, open } = self;
        let mut still_open = open;
        if open {
            match cause {
                None => {
                    still_open = false;
                },
                Some(message) => {
                    let frame = if frames.len() < MAX_FRAMES {
                        StackFrame::new(location, message)
                    } else {
                        still_open = false;
                        StackFrame::new(location, truncation_message())
                    };
                    frames.push(frame);
                    assert(frame_views(frames@) =~= before.frames.push(frame@));
                },
            }
        }
        let next = Collector { location, frames, open: still_open };
        next
    }

    /// Ends the collection and hands out the frames, the error's own first.
    pub fn finish(self) -> (stack: Vec<StackFrame>)
        ensures
            frame_views(stack@) == self@.frames,
            self@.wf(),
    {
        proof {
            use_type_invariant(&self);
        }
        self.frames
    }
}

} // verus!
