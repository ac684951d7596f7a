use vstd::prelude::*;

use crate::path::SymbolicPath;

verus! {

/// An address handed out by the backend: memory of unknown validity. It is
/// kept apart from any owned pointer and never dereferenced here.
#[derive(PartialEq, Eq, Structural, Clone, Copy, Debug)]
pub struct Address {
    pub raw: usize,
}

/// The link out of a node, or out of the list's head.
pub enum Link<T> {
    /// No successor.
    Empty,
    /// A concretely owned successor.
    More(Box<Node<T>>),
    /// A successor at a symbolic address: where the concrete part ends.
    Symbolic(Address),
}

pub struct Node<T> {
    pub elem: T,
    pub next: Link<T>,
}

/// The elements before a link's end, head first.
pub open spec fn link_elems<T>(link: Link<T>) -> Seq<T>
    decreases link,
{
    match link {
        Link::More(node) => seq![node.elem].add(link_elems(node.next)),
        _ => Seq::empty(),
    }
}

/// The symbolic address a link ends in, if it ends in one.
pub open spec fn link_end<T>(link: Link<T>) -> Option<Address>
    decreases link,
{
    match link {
        Link::Empty => None,
        Link::More(node) => link_end(node.next),
        Link::Symbolic(a) => Some(a),
    }
}

/// A stack whose chain of nodes may end in a symbolic address, with a second
/// symbolic address kept aside as its tail, for dereferenceability checks
/// only.
pub struct PartialList<T> {
    head: Link<T>,
    tail: Option<Address>,
}

pub struct PartialView<T> {
    /// The concrete elements, head first.
    pub elems: Seq<T>,
    /// The symbolic address the chain ends in, if any.
    pub end: Option<Address>,
    /// The symbolic tail address kept aside.
    pub tail: Option<Address>,
}

impl<T> PartialView<T> {
    /// The list after a pop, and what the pop yields: the first concrete
    /// element, or nothing and no change where none is left before the end.
    pub open spec fn popped(self) -> (PartialView<T>, Option<T>) {
        if self.elems.len() == 0 {
            (self, None)
        } else {
            (PartialView { elems: self.elems.drop_first(), end: self.end, tail: self.tail }, Some(self.elems[0]))
        }
    }

    /// Nothing concrete is left before the symbolic link.
    pub open spec fn at_symbolic_end(self) -> bool {
        self.elems.len() == 0 && self.end.is_some()
    }
}

impl<T> View for PartialList<T> {
    type V = PartialView<T>;

    closed spec fn view(&self) -> PartialView<T> {
        PartialView { elems: link_elems(self.head), end: link_end(self.head), tail: self.tail }
    }
}

impl<T> PartialList<T> {
    /// The empty, fully concrete list.
    pub fn new() -> (r: Self)
        ensures
            r@.elems == Seq::<T>::empty(),
            r@.end.is_none(),
            r@.tail.is_none(),
    {
        PartialList { head: Link::Empty, tail: None }
    }

    /// A list of one concrete node holding `first`, whose successor link is
    /// `next`, with `tail` kept aside.
    pub fn new_with_head_and_tail(first: T, next: Address, tail: Address) -> (r: Self)
        ensures
            r@.elems == seq![first],
            r@.end == Some(next),
            r@.tail == Some(tail),
    {
        let node = Node { elem: first, next: Link::Symbolic(next) };
        let r = PartialList { head: Link::More(Box::new(node)), tail: Some(tail) };
        proof {
            reveal_with_fuel(link_elems, 2);
            reveal_with_fuel(link_end, 2);
            assert(r@.elems =~= seq![first]);
        }
        r
    }

    /// Puts `elem` in front.
    pub fn push(&mut self, elem: T)
        ensures
            final(self)@.elems == seq![elem].add(old(self)@.elems),
            final(self)@.end == old(self)@.end,
            final(self)@.tail == old(self)@.tail,
    {
        let mut rest = Link::Empty;
        std::mem::swap(&mut self.head, &mut rest);
        self.head = Link::More(Box::new(Node { elem: elem, next: rest }));
    }

    /// The head is the symbolic link: nothing concrete is left before it.
    pub fn at_symbolic_end(&self) -> (r: bool)
        ensures
            r == self@.at_symbolic_end(),
    {
        match &self.head {
            Link::Symbolic(_) => true,
            _ => false,
        }
    }

    /// The symbolic address the chain ends in, if any.
    pub fn end(&self) -> (r: Option<Address>)
        ensures
            r == self@.end,
    {
        let mut link = &self.head;
        loop
            invariant
                link_end(*link) == link_end(self.head),
            decreases *link,
        {
            match link {
                Link::Empty => {
                    return None;
                },
                Link::Symbolic(a) => {
                    return Some(*a);
                },
                Link::More(node) => {
                    link = &node.next;
                },
            }
        }
    }

    /// The symbolic tail address kept aside.
    pub fn tail(&self) -> (r: Option<Address>)
        ensures
            r == self@.tail,
    {
        self.tail
    }

    /// The first concrete element, if there is one before the end.
    pub fn peek(&self) -> (r: Option<&T>)
        ensures
            self@.elems.len() == 0 ==> r.is_none(),
            self@.elems.len() > 0 ==> r == Some(&self@.elems[0]),
    {
        match &self.head {
            Link::More(node) => Some(&node.elem),
            _ => None,
        }
    }

    /// Takes the first concrete element off. With none before the end the
    /// list is left as it is: nothing past the end is ever read.
    pub fn pop(&mut self) -> (r: Option<T>)
        ensures
            (final(self)@, r) == old(self)@.popped(),
    {
        let mut head = Link::Empty;
        std::mem::swap(&mut self.head, &mut head);
        match head {
            Link::More(node) => {
                let node = *node;
                self.head = node.next;
                proof {
                    assert(final(self)@.elems =~= old(self)@.elems.drop_first());
                }
                Some(node.elem)
            },
            other => {
                self.head = other;
                None
            },
        }
    }
}

/// A list built around one concrete element shows that element first; once
/// it is popped no concrete element is left, the head is the symbolic link,
/// and a further pop yields nothing.
pub proof fn lemma_built_list_pops_to_symbolic_end(v: PartialView<i32>, head_elem: i32)
    requires
        v.elems == seq![head_elem],
        v.end.is_some(),
    ensures
        v.elems[0] == head_elem,
        v.popped().1 == Some(head_elem),
        v.popped().0.at_symbolic_end(),
        v.popped().0.end == v.end,
        v.popped().0.popped() == (v.popped().0, None::<i32>),
{
}

/// Builds a list of one concrete node holding `head_elem`, whose successor
/// is a fresh symbolic address, and a fresh symbolic tail address. Nothing
/// is dereferenced.
pub fn build_partial_list(path: &mut SymbolicPath, head_elem: i32) -> (r: PartialList<i32>)
    requires
        old(path).wf(),
    ensures
        final(path).wf(),
        r@.elems == seq![head_elem],
        old(path)@.can_draw(2) ==> ({
            &&& r@.end == Some(Address { raw: old(path)@.pending[0] as usize })
            &&& r@.tail == Some(Address { raw: old(path)@.pending[1] as usize })
            &&& final(path)@ == old(path)@.advanced(2)
        }),
        !old(path)@.can_draw(2) ==> final(path)@.status != crate::path::Status::Live,
        r@.end.is_some(),
        r@.tail.is_some(),
{
    let next = Address { raw: path.fresh_usize() };
    let tail = Address { raw: path.fresh_usize() };
    proof {
        if old(path)@.can_draw(2) {
            assert(old(path)@.advanced(1).advanced(1).pending =~= old(path)@.advanced(2).pending);
        }
    }
    PartialList::new_with_head_and_tail(head_elem, next, tail)
}

} // verus!
