use vstd::prelude::*;
use std::rc::Rc;
use crate::weak::WeakLink;

verus! {

/// The values of a chain, newest first.
pub open spec fn values<T>(c: Seq<(T, bool)>) -> Seq<T> {
    c.map_values(|e: (T, bool)| e.0)
}

/// Whether the link that leads to entry `k` of chain `c` is weak. The link to
/// the first entry is the one a cursor stands on, weak when `head_weak`; the
/// link to any later entry is the outgoing link of the entry before it.
pub open spec fn weak_into<T>(c: Seq<(T, bool)>, head_weak: bool, k: int) -> bool {
    if k == 0 {
        head_weak
    } else {
        c[k - 1].1
    }
}

/// Whether walking chain `c`, entered through a weak link when `head_weak`,
/// may produce exactly `out`: the values of a prefix of the chain, which is
/// either the whole chain or ends just before a weak link, the only place
/// where a reclaimed tail can cut the walk short.
pub open spec fn may_yield<T>(c: Seq<(T, bool)>, head_weak: bool, out: Seq<T>) -> bool {
    &&& out.len() <= c.len()
    &&& forall|i: int| 0 <= i < out.len() ==> #[trigger] out[i] == c[i].0
    &&& out.len() == c.len() || weak_into(c, head_weak, out.len() as int)
}

/// A link to the rest of a chain.
#[verifier::reject_recursive_types(T)]
enum Link<T> {
    Weak(WeakLink<T>),
    Strong(Rc<Node<T>>),
    Absent,
}

impl<T> Link<T> {
    /// The chain this link leads to; empty for an absent link.
    pub closed spec fn chain(&self) -> Seq<(T, bool)> {
        match self {
            Link::Weak(w) => w.target(),
            Link::Strong(rc) => rc.chain(),
            Link::Absent => Seq::empty(),
        }
    }

    /// The same target, held weakly; an absent link stays absent.
    fn downgrade(&self) -> (r: Link<T>)
        ensures
            r.chain() == self.chain(),
            r is Absent <==> self is Absent,
            !(r is Strong),
    {
        match self {
            Link::Weak(w) => Link::Weak(w.duplicate()),
            Link::Strong(rc) => Link::Weak(WeakLink::new(rc)),
            Link::Absent => Link::Absent,
        }
    }
}

impl<T> Clone for Link<T> {
    fn clone(&self) -> (r: Self)
        ensures
            r.chain() == self.chain(),
            r is Weak <==> self is Weak,
            r is Absent <==> self is Absent,
    {
        match self {
            Link::Weak(w) => Link::Weak(w.duplicate()),
            Link::Strong(rc) => Link::Strong(Rc::clone(rc)),
            Link::Absent => Link::Absent,
        }
    }
}

/// One immutable element of a list, with the link to the older elements.
#[verifier::reject_recursive_types(T)]
#[derive(Clone)]
pub struct Node<T> {
    value: T,
    next: Link<T>,
}

impl<T> Node<T> {
    /// The element this node holds.
    pub closed spec fn val(&self) -> T {
        self.value
    }

    /// The chain that starts at this node: for each node, newest first, its
    /// value and whether its link to the next older node is weak.
    pub closed spec fn chain(&self) -> Seq<(T, bool)>
        decreases self,
    {
        let tail = match &self.next {
            Link::Weak(w) => w.target(),
            Link::Strong(rc) => rc.chain(),
            Link::Absent => Seq::empty(),
        };
        seq![(self.value, self.next is Weak)] + tail
    }
}

impl<T> std::ops::Deref for Node<T> {
    type Target = T;

    fn deref(&self) -> (r: &T)
        ensures
            *r == self.val(),
    {
        &self.value
    }
}

/// A handle on a list: the newest node, if any. Cloning a handle copies only
/// its link; the nodes stay shared.
#[verifier::reject_recursive_types(T)]
pub struct RcList<T> {
    first: Link<T>,
}

impl<T> View for RcList<T> {
    type V = Seq<(T, bool)>;

    /// The chain of the list: each element, newest first, with whether its
    /// link to the next older element is weak.
    closed spec fn view(&self) -> Seq<(T, bool)> {
        self.first.chain()
    }
}

impl<T> RcList<T> {
    /// A handle holds its newest node strongly, or nothing.
    #[verifier::type_invariant]
    closed spec fn head_is_held(&self) -> bool {
        !(self.first is Weak)
    }

    /// Creates a list with no entries.
    pub fn new() -> (r: RcList<T>)
        ensures
            r@ == Seq::<(T, bool)>::empty(),
    {
        RcList { first: Link::Absent }
    }
}

impl<T: Clone> RcList<T> {
    /// Creates a list of `value` followed by the entries of `rest`, holding
    /// them strongly.
    pub fn new_append(value: T, rest: &RcList<T>) -> (r: RcList<T>)
        ensures
            r@ == seq![(value, false)] + rest@,
    {
        proof {
            use_type_invariant(rest);
        }
        let first = rest.first.clone();
        RcList { first: Link::Strong(Rc::new(Node { value: value, next: first })) }
    }

    /// Creates a list of `value` followed by the entries of `rest`, holding
    /// them weakly: once no other handle holds them strongly, they are freed
    /// and the new list ends after `value`.
    pub fn new_append_weak(value: T, rest: &RcList<T>) -> (r: RcList<T>)
        ensures
            r@ == seq![(value, rest@.len() > 0)] + rest@,
    {
        proof {
            use_type_invariant(rest);
        }
        let first = rest.first.clone();
        RcList { first: Link::Strong(Rc::new(Node { value: value, next: first.downgrade() })) }
    }

    /// Returns an iterator over the entries, newest first.
    pub fn iter(&self) -> (r: RcListIter<T>)
        ensures
            r.rest() == self@,
            !r.at_weak(),
    {
        proof {
            use_type_invariant(self);
        }
        RcListIter { iter: self.first.clone() }
    }
}

impl<T> Clone for RcList<T> {
    fn clone(&self) -> (r: Self)
        ensures
            r@ == self@,
    {
        proof {
            use_type_invariant(self);
        }
        RcList { first: self.first.clone() }
    }
}

/// Iterator over a list, from the newest entry to the oldest.
#[verifier::reject_recursive_types(T)]
pub struct RcListIter<T: 'static> {
    iter: Link<T>,
}

/// A reference to one entry of a list; it keeps that entry's node alive.
#[verifier::reject_recursive_types(T)]
pub struct Ref<T> {
    rc: Rc<Node<T>>,
}

impl<T> View for Ref<T> {
    type V = T;

    closed spec fn view(&self) -> T {
        self.rc.value
    }
}

impl<T> Ref<T> {
    /// The node this reference holds.
    pub closed spec fn node(&self) -> Node<T> {
        *self.rc
    }
}

impl<T: Clone> Ref<T> {
    pub fn new(rc: Rc<Node<T>>) -> (r: Ref<T>)
        ensures
            r.node() == *rc,
            r@ == rc.val(),
    {
        Ref { rc: rc }
    }
}

impl<T> std::ops::Deref for Ref<T> {
    type Target = T;

    fn deref(&self) -> (r: &T)
        ensures
            *r == self@,
    {
        &self.rc.value
    }
}

impl<T: Clone> RcListIter<T> {
    /// The chain still to be visited.
    pub closed spec fn rest(&self) -> Seq<(T, bool)> {
        self.iter.chain()
    }

    /// Whether the iterator stands on a weak link, whose target may be gone.
    pub closed spec fn at_weak(&self) -> bool {
        self.iter is Weak
    }

    /// Produces the next entry, or `None` once the chain is exhausted or
    /// its next node has been freed; after `None` it only gives `None`.
    pub fn next(&mut self) -> (r: Option<Ref<T>>)
        ensures
            old(self).rest().len() == 0 ==> r is None,
            r is None ==> old(self).rest().len() == 0 || old(self).at_weak(),
            r is None ==> final(self).rest().len() == 0,
            r matches Some(x) ==> {
                &&& x@ == old(self).rest()[0].0
                &&& final(self).rest() == old(self).rest().drop_first()
                &&& final(self).at_weak() == old(self).rest()[0].1
            },
    {
        let ret = match &self.iter {
            Link::Absent => None,
            Link::Strong(rc) => Some(Ref::new(Rc::clone(rc))),
            Link::Weak(w) => match w.upgrade() {
                Some(rc) => Some(Ref::new(rc)),
                None => None,
            },
        };
        self.iter = match &ret {
            Some(x) => x.rc.next.clone(),
            None => Link::Absent,
        };
        ret
    }

    /// Runs the iterator to its end and returns the entries it produced.
    pub fn collect(self) -> (r: Vec<Ref<T>>)
        ensures
            may_yield(self.rest(), self.at_weak(), r@.map_values(|x: Ref<T>| x@)),
    {
        let mut it = self;
        let mut out: Vec<Ref<T>> = Vec::new();
        loop
            invariant
                out@.len() + it.rest().len() == self.rest().len(),
                forall|i: int| 0 <= i < out@.len() ==> #[trigger] out@[i]@ == self.rest()[i].0,
                it.rest() == self.rest().skip(out@.len() as int),
                it.at_weak() == weak_into(self.rest(), self.at_weak(), out@.len() as int),
            decreases it.rest().len(),
        {
            match it.next() {
                Some(x) => {
                    out.push(x);
                },
                None => {
                    return out;
                },
            }
        }
    }
}

} // verus!
