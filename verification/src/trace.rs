//! The virtual stack of an error: one frame for the error and one for each
//! underlying cause, outermost first, and the block of text that shows it.

use crate::chain::{link_views, next_link, ChainView, ErrorChain, LinkView};
use crate::collector::{truncation_text, Collector, MAX_FRAMES};
use crate::decimal::{append_decimal, decimal};
use crate::frame::{
    frame_text, frame_views, messages, FrameView, Location, LocationView, StackFrame,
};
use vstd::prelude::*;
use vstd::string::StringExecFns;

verus! {

/// The messages of the frames from the link `at` on, where `budget` says how
/// many links may still get a frame of their own: the message of `at`, then
/// those of the links that follow it, until a link has no cause that can be
/// reached. Where the budget is used up and a link is still to come, the
/// message that marks the cut stands for all the rest.
pub open spec fn walk(links: Seq<LinkView>, at: nat, budget: nat) -> Seq<Seq<char>>
    recommends
        at < links.len(),
    decreases budget, 0nat,
{
    if budget == 0 {
        seq![truncation_text()]
    } else {
        seq![links[at as int].message] + walk_on(links, at, (budget - 1) as nat)
    }
}

/// The messages of the frames that come after that of the link `at`.
pub open spec fn walk_on(links: Seq<LinkView>, at: nat, budget: nat) -> Seq<Seq<char>>
    recommends
        at < links.len(),
    decreases budget, 1nat,
{
    match next_link(links, at) {
        Some(next) => walk(links, next, budget),
        None => Seq::empty(),
    }
}

/// The virtual stack of the error at the head of `chain`, asked for at
/// `location`. Every frame has that one location: where the causes were made
/// is not known.
pub open spec fn trace(location: LocationView, chain: ChainView) -> Seq<FrameView>
    recommends
        chain.wf(),
{
    let texts = walk(chain.links, chain.head, MAX_FRAMES as nat);
    Seq::new(texts.len(), |i: int| FrameView { location, message: texts[i] })
}

/// Walks the chain from the error itself along the underlying causes and
/// makes a frame of each link, the error's own first. A walk that would give
/// more than [`MAX_FRAMES`] frames, as one round a cycle does, is cut there
/// and a last frame says so.
pub fn collect(location: Location, chain: &ErrorChain) -> (stack: Vec<StackFrame>)
    ensures
        frame_views(stack@) == trace(location@, chain@),
        1 <= stack.len() <= MAX_FRAMES + 1,
        chain@.wf(),
{
    let head: usize = chain.head();
    let links = chain.links();
    let mut collector = Collector::begin(location, links[head].message.clone());
    let mut at: usize = head;
    while collector.is_open()
        invariant
            link_views(links@) == chain@.links,
            at < links.len(),
            collector@.wf(),
            collector@.location == location@,
            collector@.open ==> messages(collector@.frames) + walk_on(
                chain@.links,
                at as nat,
                (MAX_FRAMES - collector@.frames.len()) as nat,
            ) == walk(chain@.links, chain@.head, MAX_FRAMES as nat),
            !collector@.open ==> messages(collector@.frames) == walk(
                chain@.links,
                chain@.head,
                MAX_FRAMES as nat,
            ),
        decreases collector@.room(),
    {
        match chain.next_link(at) {
            Some(next) => {
                collector = collector.record(Some(links[next].message.clone()));
                at = next;
            },
            None => {
                collector = collector.record(None);
            },
        }
    }
    collector.finish()
}

/// What can give its virtual stack: an error value that knows its own message
/// and its underlying causes.
pub trait VirtualStackTrace {
    /// The virtual stack of this error, asked for at `location`: one frame
    /// for each step of the error's propagation, from the outermost error
    /// down to the root cause.
    fn virtual_stack(&self, location: Location) -> Vec<StackFrame>;
}

impl VirtualStackTrace for ErrorChain {
    fn virtual_stack(&self, location: Location) -> (stack: Vec<StackFrame>)
        ensures
            frame_views(stack@) == trace(location@, self@),
            1 <= stack.len() <= MAX_FRAMES + 1,
            self@.wf(),
    {
        collect(location, self)
    }
}

/// The message that heads the block: that of the first frame, or nothing for
/// a stack without frames.
pub open spec fn head_text(stack: Seq<FrameView>) -> Seq<char> {
    if stack.len() > 0 {
        stack[0].message
    } else {
        Seq::empty()
    }
}

/// The line of the frame at `index`: two spaces, the index in decimal, a
/// colon, a space, the text of the frame, and a line break.
pub open spec fn frame_line(index: nat, frame: FrameView) -> Seq<char> {
    "  "@ + decimal(index) + ": "@ + frame_text(frame) + "\n"@
}

/// The lines of the first `count` frames of `stack`, in order.
pub open spec fn frame_lines(stack: Seq<FrameView>, count: nat) -> Seq<char>
    recommends
        count <= stack.len(),
    decreases count,
{
    if count == 0 {
        Seq::empty()
    } else {
        frame_lines(stack, (count - 1) as nat) + frame_line(
            (count - 1) as nat,
            stack[count - 1],
        )
    }
}

/// The block of text that shows a virtual stack: the line `Error: ` with the
/// message of the first frame, the line `Virtual Stack Trace:`, then the line
/// of each frame in order.
pub open spec fn block_text(stack: Seq<FrameView>) -> Seq<char> {
    "Error: "@ + head_text(stack) + "\n"@ + "Virtual Stack Trace:"@ + "\n"@ + frame_lines(
        stack,
        stack.len(),
    )
}

/// Lays a virtual stack out as text for a reader:
///
/// ```text
/// Error: <message of frame 0>
/// Virtual Stack Trace:
///   0: <frame 0>
///   1: <frame 1>
/// ```
///
/// Every line, the last one too, ends in a line break.
pub fn render_block(stack: &Vec<StackFrame>) -> (text: String)
    ensures
        text@ == block_text(frame_views(stack@)),
{
    let mut text = String::from_str("Error: ");
    if stack.len() > 0 {
        text.append(stack[0].message.as_str());
    }
    text.append("\n");
    text.append("Virtual Stack Trace:");
    text.append("\n");
    let ghost top = text@;
    let mut index: usize = 0;
    while index < stack.len()
        invariant
            index <= stack.len(),
            text@ == top + frame_lines(frame_views(stack@), index as nat),
        decreases stack.len() - index,
    {
        text.append("  ");
        append_decimal(&mut text, index as u64);
        text.append(": ");
        text.append(stack[index].render().as_str());
        text.append("\n");
        index = index + 1;
    }
    text
}

} // verus!
