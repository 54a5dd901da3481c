//! A plain model of an error value: the links it can lead to, each with its
//! own message and the place of its underlying cause.

use vstd::prelude::*;

verus! {

/// One error of a chain: its own message, and where among the links of the
/// chain its underlying cause stands, if it has one.
#[derive(Debug, PartialEq, Eq)]
pub struct ErrorLink {
    /// The error's own text, without that of its causes.
    pub message: String,
    /// The index of the underlying cause, or `None` for a root.
    pub cause: Option<usize>,
}

impl Clone for ErrorLink {
    fn clone(&self) -> (copy: ErrorLink)
        ensures
            copy == *self,
    {
        ErrorLink { message: self.message.clone(), cause: self.cause }
    }
}

/// An [`ErrorLink`] as mathematics sees it.
pub struct LinkView {
    pub message: Seq<char>,
    pub cause: Option<nat>,
}

/// An index that may be missing, as a natural number that may be missing.
pub open spec fn index_view(index: Option<usize>) -> Option<nat> {
    match index {
        Some(n) => Some(n as nat),
        None => None,
    }
}

impl View for ErrorLink {
    type V = LinkView;

    open spec fn view(&self) -> LinkView {
        LinkView { message: self.message@, cause: index_view(self.cause) }
    }
}

/// The views of a sequence of links, in the same order.
pub open spec fn link_views(links: Seq<ErrorLink>) -> Seq<LinkView> {
    Seq::new(links.len(), |i: int| links[i]@)
}

/// The link that follows `at`: the cause that `at` names, provided that both
/// `at` and the cause are links of the chain. A cause that is not among the
/// links cannot be reached, and so counts as none.
pub open spec fn next_link(links: Seq<LinkView>, at: nat) -> Option<nat> {
    if at < links.len() {
        match links[at as int].cause {
            Some(n) => if n < links.len() {
                Some(n)
            } else {
                None
            },
            None => None,
        }
    } else {
        None
    }
}

/// The links of a chain without branches or cycles: one link for each
/// message, each but the last with the next as its cause.
pub open spec fn straight_links(texts: Seq<Seq<char>>) -> Seq<LinkView> {
    Seq::new(
        texts.len(),
        |i: int|
            LinkView {
                message: texts[i],
                cause: if i + 1 < texts.len() {
                    Some((i + 1) as nat)
                } else {
                    None
                },
            },
    )
}

/// The chain without branches or cycles of an error that has the first of
/// `texts` as its message, with the other texts as the messages of its
/// causes, in order.
pub open spec fn straight_chain(texts: Seq<Seq<char>>) -> ChainView {
    ChainView { links: straight_links(texts), head: 0 }
}

/// The views of a sequence of strings, in the same order.
pub open spec fn texts_of(strings: Seq<String>) -> Seq<Seq<char>> {
    Seq::new(strings.len(), |i: int| strings[i]@)
}

/// An error value together with the errors it can lead to. The error itself
/// is the link at `head`; every other link is reached, if at all, by
/// following causes from there. Nothing keeps the causes from leading back to
/// a link already passed.
pub struct ErrorChain {
    links: Vec<ErrorLink>,
    head: usize,
}

/// An [`ErrorChain`] as mathematics sees it.
pub struct ChainView {
    pub links: Seq<LinkView>,
    pub head: nat,
}

impl ChainView {
    /// The head is one of the links.
    pub open spec fn wf(self) -> bool {
        self.head < self.links.len()
    }
}

impl View for ErrorChain {
    type V = ChainView;

    closed spec fn view(&self) -> ChainView {
        ChainView { links: link_views(self.links@), head: self.head as nat }
    }
}

impl ErrorChain {
    #[verifier::type_invariant]
    spec fn head_is_a_link(&self) -> bool {
        self.head < self.links.len()
    }

    /// The chain of the error at `head` among `links`, or `None` where there
    /// is no such link.
    pub fn new(links: Vec<ErrorLink>, head: usize) -> (chain: Option<ErrorChain>)
        ensures
            chain is Some <==> head < links.len(),
            chain matches Some(c) ==> c@ == (ChainView {
                links: link_views(links@),
                head: head as nat,
            }) && c@.wf(),
    {
        if head < links.len() {
            Some(ErrorChain { links, head })
        } else {
            None
        }
    }

    /// The chain of an error whose message is the first of `messages`, whose
    /// cause has the second, and so on down to the root cause, which has the
    /// last; `None` where there is no message at all.
    pub fn from_messages(messages: &Vec<String>) -> (chain: Option<ErrorChain>)
        ensures
            chain is Some <==> messages.len() > 0,
            chain matches Some(c) ==> c@ == straight_chain(texts_of(messages@)) && c@.wf(),
    {
        let mut links: Vec<ErrorLink> = Vec::new();
        let mut index: usize = 0;
        while index < messages.len()
            invariant
                index <= messages.len(),
                links.len() == index,
                forall|i: int|
                    0 <= i < index ==> (#[trigger] links[i])@ == straight_links(
                        texts_of(messages@),
                    )[i],
            decreases messages.len() - index,
        {
            let cause = if index + 1 < messages.len() {
                Some(index + 1)
            } else {
                None
            };
            links.push(ErrorLink { message: messages[index].clone(), cause });
            index = index + 1;
        }
        if links.len() > 0 {
            assert(link_views(links@) =~= straight_links(texts_of(messages@)));
            Some(ErrorChain { links, head: 0 })
        } else {
            None
        }
    }

    /// The index of the error itself.
    pub fn head(&self) -> (head: usize)
        ensures
            head == self@.head,
            self@.wf(),
    {
        proof {
            use_type_invariant(self);
        }
        self.head
    }

    /// All links of the chain.
    pub fn links(&self) -> (links: &Vec<ErrorLink>)
        ensures
            link_views(links@) == self@.links,
            self@.wf(),
    {
        proof {
            use_type_invariant(self);
        }
        &self.links
    }

    /// The link that follows `at` when causes are followed.
    pub fn next_link(&self, at: usize) -> (next: Option<usize>)
        ensures
            index_view(next) == next_link(self@.links, at as nat),
    {
        if at < self.links.len() {
            match self.links[at].cause {
                Some(n) => if n < self.links.len() {
                    Some(n)
                } else {
                    None
                },
                None => None,
            }
        } else {
            None
        }
    }
}

} // verus!
