//! The frame model: one step of an error's propagation and its text.

use crate::decimal::{append_decimal, decimal};
use vstd::prelude::*;
use vstd::string::StringExecFns;

verus! {

/// A position in source code: a file path, a line and a column.
#[derive(Clone, Copy, Debug, PartialEq, Eq)]
pub struct Location {
    pub file: &'static str,
    pub line: u32,
    pub column: u32,
}

/// A [`Location`] as mathematics sees it.
pub struct LocationView {
    pub file: Seq<char>,
    pub line: nat,
    pub column: nat,
}

impl View for Location {
    type V = LocationView;

    open spec fn view(&self) -> LocationView {
        LocationView { file: self.file@, line: self.line as nat, column: self.column as nat }
    }
}

/// The text of a location: `file:line:column`, the numbers in decimal, with
/// nothing around them.
pub open spec fn location_text(location: LocationView) -> Seq<char> {
    location.file + ":"@ + decimal(location.line) + ":"@ + decimal(location.column)
}

/// Appends `file:line:column` to `out`.
fn append_location(out: &mut String, location: &Location)
    ensures
        final(out)@ == old(out)@ + location_text(location@),
{
    out.append(location.file);
    out.append(":");
    append_decimal(out, location.line as u64);
    out.append(":");
    append_decimal(out, location.column as u64);
}

impl Location {
    /// A location from its three parts, stored as given.
    pub fn new(file: &'static str, line: u32, column: u32) -> (location: Location)
        ensures
            location.file == file,
            location.line == line,
            location.column == column,
    {
        Location { file, line, column }
    }

    /// The location as text: `file:line:column`.
    pub fn render(&self) -> (text: String)
        ensures
            text@ == location_text(self@),
    {
        let mut text = String::new();
        append_location(&mut text, self);
        text
    }
}

/// One step of an error's propagation: the message of the error at that step
/// and the location the step is attributed to.
///
/// A frame is a snapshot. Nothing in this library changes one after it was
/// made.
#[derive(Debug, PartialEq, Eq)]
pub struct StackFrame {
    /// Where the error occurred or was passed on.
    pub location: Location,
    /// The error's message at this step.
    pub message: String,
}

/// A [`StackFrame`] as mathematics sees it.
pub struct FrameView {
    pub location: LocationView,
    pub message: Seq<char>,
}

impl View for StackFrame {
    type V = FrameView;

    open spec fn view(&self) -> FrameView {
        FrameView { location: self.location@, message: self.message@ }
    }
}

/// The views of a sequence of frames, in the same order.
pub open spec fn frame_views(frames: Seq<StackFrame>) -> Seq<FrameView> {
    Seq::new(frames.len(), |i: int| frames[i]@)
}

/// The messages of a sequence of frames, in the same order.
pub open spec fn messages(frames: Seq<FrameView>) -> Seq<Seq<char>> {
    Seq::new(frames.len(), |i: int| frames[i].message)
}

/// The text of a frame: the message, the four characters `" at "`, then the
/// text of the location.
pub open spec fn frame_text(frame: FrameView) -> Seq<char> {
    frame.message + " at "@ + location_text(frame.location)
}

impl Clone for StackFrame {
    fn clone(&self) -> (copy: StackFrame)
        ensures
            copy == *self,
    {
        StackFrame { location: self.location, message: self.message.clone() }
    }
}

impl StackFrame {
    /// A frame from a location and a message, both stored as given.
    pub fn new(location: Location, message: String) -> (frame: StackFrame)
        ensures
            frame.location == location,
            frame.message == message,
    {
        StackFrame { location, message }
    }

    /// The frame as text: `{message} at {file}:{line}:{column}`.
    pub fn render(&self) -> (text: String)
        ensures
            text@ == frame_text(self@),
    {
        let mut text = self.message.clone();
        text.append(" at ");
        append_location(&mut text, &self.location);
        text
    }
}

} // verus!
