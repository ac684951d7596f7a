use std::rc::Rc;
use vstd::prelude::*;

verus! {

/// A persistent singly linked list: `append` and `tail` build new lists that
/// share their nodes with the list they came from.
pub struct List<T> {
    head: Link<T>,
}

pub type Link<T> = Option<Rc<Node<T>>>;

pub struct Node<T> {
    pub elem: T,
    pub next: Link<T>,
}

/// The elements reachable from a link, head first.
pub open spec fn link_seq<T>(link: Link<T>) -> Seq<T>
    decreases link,
{
    match link {
        None => Seq::empty(),
        Some(node) => seq![node.elem].add(link_seq(node.next)),
    }
}

/// Relies on `Rc::clone`: it hands out another pointer to the same allocation.
#[verifier::external_body]
fn share<T>(r: &Rc<Node<T>>) -> (res: Rc<Node<T>>)
    ensures
        res == *r,
{
    Rc::clone(r)
}

/// A walk over the elements of a list, head first.
pub struct Iter<'a, T> {
    next: Option<&'a Node<T>>,
}

/// The elements reachable from a borrowed node, that node's element first.
pub open spec fn node_seq<T>(node: Option<&Node<T>>) -> Seq<T> {
    match node {
        None => Seq::empty(),
        Some(n) => seq![n.elem].add(link_seq(n.next)),
    }
}

impl<'a, T> View for Iter<'a, T> {
    type V = Seq<T>;

    /// The elements that the walk has still to hand out.
    closed spec fn view(&self) -> Seq<T> {
        node_seq(self.next)
    }
}

impl<'a, T> Iter<'a, T> {
    /// Hands out the next element, or `None` once every element was handed out.
    pub fn next(&mut self) -> (r: Option<&'a T>)
        ensures
            old(self)@.len() == 0 ==> r.is_none() && final(self)@.len() == 0,
            old(self)@.len() > 0 ==> r == Some(&old(self)@[0]) && final(self)@ == old(self)@.drop_first(),
    {
        match self.next {
            None => None,
            Some(node) => {
                self.next = match &node.next {
                    None => None,
                    Some(rc) => Some(&**rc),
                };
                proof {
                    assert(old(self)@.drop_first() =~= self@);
                }
                Some(&node.elem)
            },
        }
    }
}

impl<T> View for List<T> {
    type V = Seq<T>;

    closed spec fn view(&self) -> Seq<T> {
        link_seq(self.head)
    }
}

impl<T> List<T> {
    /// The empty list.
    pub fn new() -> (r: Self)
        ensures
            r@ == Seq::<T>::empty(),
    {
        List { head: None }
    }

    /// A new list with `elem` in front of the elements of `self`.
    pub fn append(&self, elem: T) -> (r: List<T>)
        ensures
            r@ == seq![elem].add(self@),
    {
        let next = match &self.head {
            None => None,
            Some(node) => Some(share(node)),
        };
        List { head: Some(Rc::new(Node { elem: elem, next: next })) }
    }

    /// The list without its first element; the empty list stays empty.
    pub fn tail(&self) -> (r: List<T>)
        ensures
            self@.len() == 0 ==> r@.len() == 0,
            self@.len() > 0 ==> r@ == self@.drop_first(),
    {
        let head = match &self.head {
            None => None,
            Some(node) => match &node.next {
                None => None,
                Some(next) => Some(share(next)),
            },
        };
        let r = List { head: head };
        proof {
            if self@.len() > 0 {
                assert(self@.drop_first() =~= r@);
            }
        }
        r
    }

    /// A walk over the elements, head first.
    pub fn iter(&self) -> (r: Iter<'_, T>)
        ensures
            r@ == self@,
    {
        let next = match &self.head {
            None => None,
            Some(rc) => Some(&**rc),
        };
        Iter { next: next }
    }

    /// The first element, if any.
    pub fn head(&self) -> (r: Option<&T>)
        ensures
            self@.len() == 0 ==> r.is_none(),
            self@.len() > 0 ==> r == Some(&self@[0]),
    {
        match &self.head {
            None => None,
            Some(node) => Some(&node.elem),
        }
    }
}

} // verus!
