//! What holds of every virtual stack, proved of the model that
//! [`collect`](crate::trace::collect) is held to.

use crate::chain::{next_link, straight_chain, ChainView, LinkView};
use crate::collector::{truncation_text, CollectorView, MAX_FRAMES};
use crate::frame::{messages, FrameView, LocationView};
use crate::trace::{block_text, frame_line, frame_lines, head_text, trace, walk, walk_on};
use vstd::prelude::*;

verus! {

/// The link at `index` of `path` names the one after it as the cause that
/// follows it.
pub open spec fn leads_on(links: Seq<LinkView>, path: Seq<nat>, index: int) -> bool {
    next_link(links, path[index]) == Some(path[index + 1])
}

/// `path` goes from link to link along the underlying causes: it is not
/// empty, each of its entries is a link, and each but the last leads on to
/// the next.
pub open spec fn follows_causes(links: Seq<LinkView>, path: Seq<nat>) -> bool {
    &&& path.len() >= 1
    &&& forall|i: int| 0 <= i < path.len() ==> #[trigger] path[i] < links.len()
    &&& forall|i: int| 0 <= i < path.len() - 1 ==> #[trigger] leads_on(links, path, i)
}

/// The messages of the links of `path`, in the order of the path.
pub open spec fn path_messages(links: Seq<LinkView>, path: Seq<nat>) -> Seq<Seq<char>> {
    Seq::new(path.len(), |i: int| links[path[i] as int].message)
}

/// The walk from any link of a path gives the messages of the rest of the
/// path: all of them where the path ends within the budget, and as many as
/// the budget allows, then the mark of the cut, where the path is longer.
proof fn lemma_walk_along(links: Seq<LinkView>, path: Seq<nat>, from: nat, budget: nat)
    requires
        follows_causes(links, path),
        from < path.len(),
    ensures
        next_link(links, path.last()) is None && path.len() - from <= budget ==> walk(
            links,
            path[from as int],
            budget,
        ) == path_messages(links, path).skip(from as int),
        path.len() - from > budget ==> walk(links, path[from as int], budget) == path_messages(
            links,
            path,
        ).subrange(from as int, from + budget as int).push(truncation_text()),
    decreases budget,
{
    if budget > 0 && from + 1 < path.len() {
        assert(leads_on(links, path, from as int));
        lemma_walk_along(links, path, from + 1, (budget - 1) as nat);
    }
}

/// A walk gives at least one message and at most one more than its budget.
proof fn lemma_walk_len(links: Seq<LinkView>, at: nat, budget: nat)
    ensures
        1 <= walk(links, at, budget).len() <= budget + 1,
    decreases budget,
{
    if budget > 0 {
        match next_link(links, at) {
            Some(next) => lemma_walk_len(links, next, (budget - 1) as nat),
            None => {},
        }
    }
}

/// An error without an underlying cause has a stack of exactly one frame,
/// and that frame carries the error's own message.
pub proof fn error_without_cause_has_one_frame(location: LocationView, chain: ChainView)
    requires
        chain.wf(),
        next_link(chain.links, chain.head) is None,
    ensures
        trace(location, chain).len() == 1,
        trace(location, chain)[0] == (FrameView {
            location,
            message: chain.links[chain.head as int].message,
        }),
{
}

/// An error whose chain of causes has no more than [`MAX_FRAMES`] links,
/// itself included, has exactly one frame for each link, in the order of the
/// chain: the error first, its root cause last.
pub proof fn chain_within_bound_has_frame_per_link(
    location: LocationView,
    chain: ChainView,
    path: Seq<nat>,
)
    requires
        chain.wf(),
        follows_causes(chain.links, path),
        path[0] == chain.head,
        next_link(chain.links, path.last()) is None,
        path.len() <= MAX_FRAMES,
    ensures
        trace(location, chain).len() == path.len(),
        forall|i: int|
            0 <= i < path.len() ==> #[trigger] trace(location, chain)[i] == (FrameView {
                location,
                message: chain.links[path[i] as int].message,
            }),
        messages(trace(location, chain)) == path_messages(chain.links, path),
{
    lemma_walk_along(chain.links, path, 0, MAX_FRAMES as nat);
}

/// An error whose chain of causes goes on for more than [`MAX_FRAMES`]
/// links, as every chain does that leads back into itself, has a frame for
/// each of the first [`MAX_FRAMES`] links, and then one last frame that marks
/// the cut.
pub proof fn chain_beyond_bound_is_cut(location: LocationView, chain: ChainView, path: Seq<nat>)
    requires
        chain.wf(),
        follows_causes(chain.links, path),
        path[0] == chain.head,
        path.len() > MAX_FRAMES,
    ensures
        trace(location, chain).len() == MAX_FRAMES + 1,
        forall|i: int|
            0 <= i < MAX_FRAMES ==> #[trigger] trace(location, chain)[i] == (FrameView {
                location,
                message: chain.links[path[i] as int].message,
            }),
        trace(location, chain)[MAX_FRAMES as int] == (FrameView {
            location,
            message: truncation_text(),
        }),
{
    lemma_walk_along(chain.links, path, 0, MAX_FRAMES as nat);
}

/// Every link of `ring` has an underlying cause, and that cause is in `ring`
/// again: from a link of the ring the causes never come to an end.
pub open spec fn never_ends(links: Seq<LinkView>, ring: Set<nat>) -> bool {
    forall|at: nat| #[trigger]
        ring.contains(at) ==> next_link(links, at) is Some && ring.contains(
            next_link(links, at).unwrap(),
        )
}

/// A walk from a link whose causes never end uses up its budget and ends
/// with the mark of the cut.
proof fn lemma_walk_in_ring(links: Seq<LinkView>, ring: Set<nat>, at: nat, budget: nat)
    requires
        never_ends(links, ring),
        ring.contains(at),
    ensures
        walk(links, at, budget).len() == budget + 1,
        walk(links, at, budget).last() == truncation_text(),
    decreases budget,
{
    if budget > 0 {
        lemma_walk_in_ring(links, ring, next_link(links, at).unwrap(), (budget - 1) as nat);
    }
}

/// An error whose causes never come to an end, because they lead back to the
/// error itself or round a cycle behind it, has a stack of [`MAX_FRAMES`]
/// frames and one more, the last, that marks the cut.
pub proof fn chain_that_never_ends_is_cut(location: LocationView, chain: ChainView, ring: Set<nat>)
    requires
        never_ends(chain.links, ring),
        ring.contains(chain.head),
    ensures
        trace(location, chain).len() == MAX_FRAMES + 1,
        trace(location, chain).last() == (FrameView { location, message: truncation_text() }),
{
    lemma_walk_in_ring(chain.links, ring, chain.head, MAX_FRAMES as nat);
}

/// The stack of a chain without branches or cycles, of no more than
/// [`MAX_FRAMES`] errors, has the messages of these errors, one frame for
/// each, in their order.
pub proof fn straight_chain_gives_its_messages(location: LocationView, texts: Seq<Seq<char>>)
    requires
        1 <= texts.len() <= MAX_FRAMES,
    ensures
        messages(trace(location, straight_chain(texts))) == texts,
{
    let chain = straight_chain(texts);
    let path = Seq::new(texts.len(), |i: int| i as nat);
    chain_within_bound_has_frame_per_link(location, chain, path);
}

/// The stack of a chain without branches or cycles, of more than
/// [`MAX_FRAMES`] errors, has the messages of the first [`MAX_FRAMES`] of
/// them, and behind these the mark of the cut.
pub proof fn straight_chain_beyond_bound_is_cut(location: LocationView, texts: Seq<Seq<char>>)
    requires
        texts.len() > MAX_FRAMES,
    ensures
        messages(trace(location, straight_chain(texts))) == texts.take(MAX_FRAMES as int).push(
            truncation_text(),
        ),
{
    let chain = straight_chain(texts);
    let path = Seq::new(texts.len(), |i: int| i as nat);
    chain_beyond_bound_is_cut(location, chain, path);
}

/// Whatever the chain, and be it a cycle, its stack has at least the frame
/// of the error itself and at most [`MAX_FRAMES`] frames and the one that
/// marks a cut.
pub proof fn stack_is_not_empty_and_bounded(location: LocationView, chain: ChainView)
    ensures
        1 <= trace(location, chain).len() <= MAX_FRAMES + 1,
{
    lemma_walk_len(chain.links, chain.head, MAX_FRAMES as nat);
}

/// The first frame of a stack carries the message of the error itself.
pub proof fn first_frame_is_the_error_itself(location: LocationView, chain: ChainView)
    requires
        chain.wf(),
    ensures
        trace(location, chain).len() >= 1,
        trace(location, chain)[0] == (FrameView {
            location,
            message: chain.links[chain.head as int].message,
        }),
{
    lemma_walk_len(chain.links, chain.head, MAX_FRAMES as nat);
}

/// Every frame of a stack has the location that the stack was asked for at.
pub proof fn every_frame_has_the_asked_location(location: LocationView, chain: ChainView)
    ensures
        forall|i: int|
            0 <= i < trace(location, chain).len() ==> (#[trigger] trace(
                location,
                chain,
            )[i]).location == location,
{
}

/// Asked for twice, at whatever locations, an unchanged error gives two
/// stacks of one length and with the same messages in the same order. Only
/// the locations may differ.
pub proof fn messages_do_not_depend_on_location(
    first: LocationView,
    second: LocationView,
    chain: ChainView,
)
    ensures
        trace(first, chain).len() == trace(second, chain).len(),
        messages(trace(first, chain)) == messages(trace(second, chain)),
{
}

/// Telling a collector something leaves it a collector: not empty, within
/// the bound, closed once cut, and with its one location on every frame.
pub proof fn told_collector_stays_well_formed(collector: CollectorView, cause: Option<Seq<char>>)
    requires
        collector.wf(),
    ensures
        collector.told(cause).wf(),
        collector.told(cause).location == collector.location,
{
}

/// A frame, once made, stays as it is and where it is: telling a collector
/// something adds at most one frame behind those it has.
pub proof fn told_collector_keeps_its_frames(collector: CollectorView, cause: Option<Seq<char>>)
    ensures
        collector.frames.len() <= collector.told(cause).frames.len() <= collector.frames.len() + 1,
        forall|i: int|
            0 <= i < collector.frames.len() ==> #[trigger] collector.told(cause).frames[i]
                == collector.frames[i],
{
}

/// Every answer uses up room: an open collector cannot be told something
/// more than [`MAX_FRAMES`] times, whatever it is told, before it is closed.
pub proof fn told_collector_has_less_room(collector: CollectorView, cause: Option<Seq<char>>)
    requires
        collector.wf(),
        collector.open,
    ensures
        collector.told(cause).room() < collector.room() <= MAX_FRAMES,
        collector.told(cause).open ==> cause is Some,
{
}

/// The collector after it was told, `times` times over, what follows the
/// link it was last told of, starting behind the link `at`.
pub open spec fn driven(
    collector: CollectorView,
    links: Seq<LinkView>,
    at: nat,
    times: nat,
) -> CollectorView
    decreases times,
{
    if times == 0 {
        collector
    } else {
        match next_link(links, at) {
            Some(next) => driven(
                collector.told(Some(links[next as int].message)),
                links,
                next,
                (times - 1) as nat,
            ),
            None => driven(collector.told(None), links, at, (times - 1) as nat),
        }
    }
}

/// Driven for as long as it has room, a collector ends closed, with the
/// messages it had and behind them those of the walk from where it stood.
proof fn lemma_driven(collector: CollectorView, links: Seq<LinkView>, at: nat, times: nat)
    requires
        collector.wf(),
        times >= collector.room(),
    ensures
        !driven(collector, links, at, times).open,
        driven(collector, links, at, times).wf(),
        driven(collector, links, at, times).location == collector.location,
        collector.open ==> messages(driven(collector, links, at, times).frames) == messages(
            collector.frames,
        ) + walk_on(links, at, (MAX_FRAMES - collector.frames.len()) as nat),
        !collector.open ==> driven(collector, links, at, times) == collector,
    decreases times,
{
    if times > 0 {
        let after = match next_link(links, at) {
            Some(next) => collector.told(Some(links[next as int].message)),
            None => collector.told(None),
        };
        let behind = match next_link(links, at) {
            Some(next) => next,
            None => at,
        };
        lemma_driven(after, links, behind, (times - 1) as nat);
    }
}

/// The collector that was begun with the message of the error at the head
/// of `chain` and then told, for as long as it could be open, what follows
/// along the chain of causes.
pub open spec fn driven_along(location: LocationView, chain: ChainView) -> CollectorView {
    driven(
        CollectorView::begun(location, chain.links[chain.head as int].message),
        chain.links,
        chain.head,
        MAX_FRAMES as nat,
    )
}

/// To begin a collector with the message of an error and to tell it, for as
/// long as it can be open, what follows along the error's chain of causes,
/// gives the error's virtual stack.
pub proof fn driven_collector_gives_the_stack(location: LocationView, chain: ChainView)
    requires
        chain.wf(),
    ensures
        !driven_along(location, chain).open,
        driven_along(location, chain).frames == trace(location, chain),
{
    let begun = CollectorView::begun(location, chain.links[chain.head as int].message);
    lemma_driven(begun, chain.links, chain.head, MAX_FRAMES as nat);
    assert(messages(driven_along(location, chain).frames) == walk(
        chain.links,
        chain.head,
        MAX_FRAMES as nat,
    ));
}

/// The lines of the first frames of a stack are the same whatever frames
/// come behind them.
proof fn lemma_lines_of_longer_stack(stack: Seq<FrameView>, frame: FrameView, count: nat)
    requires
        count <= stack.len(),
    ensures
        frame_lines(stack.push(frame), count) == frame_lines(stack, count),
    decreases count,
{
    if count > 0 {
        lemma_lines_of_longer_stack(stack, frame, (count - 1) as nat);
    }
}

/// Every block begins with `Error: ` and the message of the first frame on
/// one line, and has `Virtual Stack Trace:` as its second line.
pub proof fn block_begins_with_its_two_headings(stack: Seq<FrameView>)
    ensures
        ("Error: "@ + head_text(stack) + "\n"@ + "Virtual Stack Trace:"@ + "\n"@).is_prefix_of(
            block_text(stack),
        ),
{
}

/// Behind its headings a block has one line for each frame, in the order of
/// the frames: a further frame adds its line at the end and changes nothing
/// before it.
pub proof fn block_has_a_line_for_each_frame(stack: Seq<FrameView>, frame: FrameView)
    requires
        stack.len() >= 1,
    ensures
        block_text(stack.push(frame)) == block_text(stack) + frame_line(stack.len(), frame),
{
    lemma_lines_of_longer_stack(stack, frame, stack.len());
}

} // verus!
