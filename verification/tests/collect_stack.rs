use virtstack::chain::{ErrorChain, ErrorLink};
use virtstack::collector::{truncation_message, MAX_FRAMES};
use virtstack::frame::{Location, StackFrame};
use virtstack::trace::{collect, VirtualStackTrace};

fn link(message: &str, cause: Option<usize>) -> ErrorLink {
    ErrorLink { message: message.to_string(), cause }
}

fn here() -> Location {
    Location::new("src/main.rs", 15, 23)
}

fn messages_of(stack: &[StackFrame]) -> Vec<String> {
    stack.iter().map(|frame| frame.message.clone()).collect()
}

#[test]
fn error_without_cause_gives_one_frame() {
    let chain = ErrorChain::new(vec![link("Something went wrong", None)], 0).unwrap();
    let stack = collect(here(), &chain);
    assert_eq!(stack.len(), 1);
    assert_eq!(stack[0].message, "Something went wrong");
    assert_eq!(stack[0].location, here());
}

#[test]
fn two_errors_give_two_frames_outermost_first() {
    let chain = ErrorChain::new(
        vec![link("outer failed", Some(1)), link("inner cause", None)],
        0,
    )
    .unwrap();
    let stack = collect(here(), &chain);
    assert_eq!(stack.len(), 2);
    assert_eq!(stack[0].message, "outer failed");
    assert_eq!(stack[1].message, "inner cause");
    assert_eq!(
        stack,
        vec![
            StackFrame::new(here(), "outer failed".to_string()),
            StackFrame::new(here(), "inner cause".to_string()),
        ]
    );
}

#[test]
fn chain_of_five_gives_five_frames_in_order() {
    let texts: Vec<String> = vec!["e0", "e1", "e2", "e3", "e4"]
        .into_iter()
        .map(|t| t.to_string())
        .collect();
    let chain = ErrorChain::from_messages(&texts).unwrap();
    let stack = collect(here(), &chain);
    assert_eq!(messages_of(&stack), texts);
}

#[test]
fn walk_follows_the_causes_and_not_the_order_of_the_links() {
    let chain = ErrorChain::new(
        vec![
            link("root", None),
            link("top", Some(3)),
            link("not part of it", Some(0)),
            link("middle", Some(0)),
        ],
        1,
    )
    .unwrap();
    let stack = collect(here(), &chain);
    assert_eq!(messages_of(&stack), vec!["top", "middle", "root"]);
}

#[test]
fn every_frame_has_the_location_of_the_request() {
    let chain = ErrorChain::new(
        vec![link("a", Some(1)), link("b", Some(2)), link("c", None)],
        0,
    )
    .unwrap();
    let asked_at = Location::new("src/handlers/user.rs", 88, 17);
    let stack = collect(asked_at, &chain);
    assert_eq!(stack.len(), 3);
    for frame in &stack {
        assert_eq!(frame.location, asked_at);
    }
    assert_eq!(stack[2].render(), "c at src/handlers/user.rs:88:17");
}

#[test]
fn cause_that_is_no_link_ends_the_walk() {
    let chain = ErrorChain::new(vec![link("a", Some(1)), link("b", Some(7))], 0).unwrap();
    let stack = collect(here(), &chain);
    assert_eq!(messages_of(&stack), vec!["a", "b"]);
}

#[test]
fn collecting_twice_gives_the_same_messages() {
    let chain = ErrorChain::new(
        vec![link("outer failed", Some(1)), link("inner cause", None)],
        0,
    )
    .unwrap();
    let first = collect(Location::new("src/a.rs", 1, 1), &chain);
    let second = collect(Location::new("src/b.rs", 2, 2), &chain);
    assert_eq!(first.len(), second.len());
    assert_eq!(messages_of(&first), messages_of(&second));
    assert_ne!(first[0].location, second[0].location);
    let third = collect(Location::new("src/a.rs", 1, 1), &chain);
    assert_eq!(first, third);
}

#[test]
fn cycle_back_to_the_head_is_cut() {
    let chain = ErrorChain::new(
        vec![link("a", Some(1)), link("b", Some(2)), link("c", Some(0))],
        0,
    )
    .unwrap();
    let stack = collect(here(), &chain);
    assert_eq!(stack.len(), MAX_FRAMES + 1);
    let round = ["a", "b", "c"];
    for (i, frame) in stack.iter().take(MAX_FRAMES).enumerate() {
        assert_eq!(frame.message, round[i % 3]);
    }
    assert_eq!(
        stack[MAX_FRAMES].message,
        "...chain truncated after 256 frames"
    );
    assert_eq!(stack[MAX_FRAMES].location, here());
}

#[test]
fn error_that_is_its_own_cause_is_cut() {
    let chain = ErrorChain::new(vec![link("again", Some(0))], 0).unwrap();
    let stack = collect(here(), &chain);
    assert_eq!(stack.len(), 257);
    assert!(stack[..256].iter().all(|frame| frame.message == "again"));
    assert_eq!(stack[256].message, truncation_message());
}

#[test]
fn cycle_behind_the_head_is_cut() {
    let chain = ErrorChain::new(
        vec![link("head", Some(1)), link("x", Some(2)), link("y", Some(1))],
        0,
    )
    .unwrap();
    let stack = collect(here(), &chain);
    assert_eq!(stack.len(), MAX_FRAMES + 1);
    assert_eq!(stack[0].message, "head");
    assert_eq!(stack[1].message, "x");
    assert_eq!(stack[2].message, "y");
    assert_eq!(stack[3].message, "x");
    assert_eq!(stack[255].message, "x");
    assert_eq!(stack[256].message, "...chain truncated after 256 frames");
}

#[test]
fn chain_of_exactly_the_bound_is_not_cut() {
    let texts: Vec<String> = (0..MAX_FRAMES).map(|i| format!("error {}", i)).collect();
    let chain = ErrorChain::from_messages(&texts).unwrap();
    let stack = collect(here(), &chain);
    assert_eq!(stack.len(), MAX_FRAMES);
    assert_eq!(messages_of(&stack), texts);
}

#[test]
fn chain_of_one_more_than_the_bound_is_cut() {
    let texts: Vec<String> = (0..MAX_FRAMES + 1).map(|i| format!("error {}", i)).collect();
    let chain = ErrorChain::from_messages(&texts).unwrap();
    let stack = collect(here(), &chain);
    assert_eq!(stack.len(), MAX_FRAMES + 1);
    assert_eq!(messages_of(&stack)[..MAX_FRAMES], texts[..MAX_FRAMES]);
    assert_eq!(stack[MAX_FRAMES].message, "...chain truncated after 256 frames");
}

#[test]
fn bound_is_256_and_its_mark_names_it() {
    assert_eq!(MAX_FRAMES, 256);
    assert_eq!(truncation_message(), "...chain truncated after 256 frames");
}

#[test]
fn chain_needs_its_head_among_the_links() {
    assert!(ErrorChain::new(Vec::new(), 0).is_none());
    assert!(ErrorChain::new(vec![link("a", None)], 1).is_none());
    assert!(ErrorChain::new(vec![link("a", None), link("b", None)], 2).is_none());
    assert!(ErrorChain::new(vec![link("a", None), link("b", None)], 1).is_some());
}

#[test]
fn chain_hands_back_what_it_was_made_of() {
    let links = vec![link("a", Some(1)), link("b", Some(9)), link("c", None)];
    let chain = ErrorChain::new(links.clone(), 2).unwrap();
    assert_eq!(chain.head(), 2);
    assert_eq!(chain.links(), &links);
    assert_eq!(chain.next_link(0), Some(1));
    assert_eq!(chain.next_link(1), None);
    assert_eq!(chain.next_link(2), None);
    assert_eq!(chain.next_link(3), None);
}

#[test]
fn chain_from_messages_links_each_to_the_next() {
    assert!(ErrorChain::from_messages(&Vec::new()).is_none());
    let texts = vec!["a".to_string(), "b".to_string(), "c".to_string()];
    let chain = ErrorChain::from_messages(&texts).unwrap();
    assert_eq!(chain.head(), 0);
    assert_eq!(
        chain.links(),
        &vec![link("a", Some(1)), link("b", Some(2)), link("c", None)]
    );
}

#[test]
fn chain_gives_its_stack_through_the_trait() {
    let chain = ErrorChain::new(
        vec![link("outer failed", Some(1)), link("inner cause", None)],
        0,
    )
    .unwrap();
    let stack = chain.virtual_stack(here());
    assert_eq!(stack, collect(here(), &chain));
    assert_eq!(messages_of(&stack), vec!["outer failed", "inner cause"]);
}
