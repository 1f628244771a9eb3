use vstd::prelude::*;
use std::rc::Rc;
use std::rc::Weak;
use crate::list::Node;

verus! {

/// A `std::rc::Weak` pointer to a node, kept out of Verus's sight.
#[verifier::external_body]
#[verifier::reject_recursive_types(T)]
struct WeakCell<T> {
    weak: Weak<Node<T>>,
}

/// A weak link to a node, together with the chain of the node it was made
/// from. Only `new` and `clone` make one, so the ghost chain always belongs to
/// the node that the pointer refers to.
#[verifier::reject_recursive_types(T)]
pub struct WeakLink<T> {
    cell: WeakCell<T>,
    target: Ghost<Seq<(T, bool)>>,
}

impl<T> WeakLink<T> {
    /// The chain of the node this link refers to.
    pub closed spec fn target(&self) -> Seq<(T, bool)> {
        self.target@
    }

    /// Relies on `Rc::downgrade`: the weak pointer refers to the allocation
    /// of `rc`, whose node never changes.
    #[verifier::external_body]
    pub fn new(rc: &Rc<Node<T>>) -> (r: WeakLink<T>)
        ensures
            r.target() == rc.chain(),
    {
        WeakLink { cell: WeakCell { weak: Rc::downgrade(rc) }, target: Ghost(rc.chain()) }
    }

    /// Relies on `Weak::upgrade`: when it succeeds, the strong pointer it
    /// returns refers to the same allocation as the weak one.
    #[verifier::external_body]
    pub fn upgrade(&self) -> (r: Option<Rc<Node<T>>>)
        ensures
            r matches Some(rc) ==> rc.chain() == self.target(),
    {
        self.cell.weak.upgrade()
    }

    /// Relies on `Weak::clone`: the copy refers to the same allocation.
    #[verifier::external_body]
    pub fn duplicate(&self) -> (r: WeakLink<T>)
        ensures
            r.target() == self.target(),
    {
        WeakLink { cell: WeakCell { weak: self.cell.weak.clone() }, target: Ghost(self.target()) }
    }
}

} // verus!
