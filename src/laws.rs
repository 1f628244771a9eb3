use vstd::prelude::*;
use crate::list::{may_yield, values, RcList};

verus! {

/// Whether no link of a chain is weak: nothing in it can be freed while the
/// handle is held.
pub open spec fn all_strong<T>(c: Seq<(T, bool)>) -> bool {
    forall|i: int| 0 <= i < c.len() ==> !(#[trigger] c[i]).1
}

/// A list made by appending `v` strongly to `base` walks as `v` followed by a
/// walk of `base`, and each walk of `base` gives one of the new list so.
pub proof fn law_append_prefix<T>(v: T, base: RcList<T>, new: RcList<T>, out: Seq<T>)
    requires
        new@ == seq![(v, false)] + base@,
    ensures
        may_yield(new@, false, out) <==> (out.len() > 0 && out[0] == v && may_yield(
            base@,
            false,
            out.drop_first(),
        )),
{
    let c = new@;
    if may_yield(c, false, out) {
        assert(out.len() > 0);
        assert(out[0] == c[0].0);
        let o = out.drop_first();
        assert forall|i: int| 0 <= i < o.len() implies #[trigger] o[i] == base@[i].0 by {
            assert(o[i] == out[i + 1]);
            assert(c[i + 1] == base@[i]);
        }
    }
    if out.len() > 0 && out[0] == v && may_yield(base@, false, out.drop_first()) {
        let o = out.drop_first();
        assert forall|i: int| 0 <= i < out.len() implies #[trigger] out[i] == c[i].0 by {
            if i > 0 {
                assert(out[i] == o[i - 1]);
                assert(c[i] == base@[i - 1]);
            }
        }
        if o.len() > 0 && o.len() < base@.len() {
            assert(c[out.len() - 1] == base@[o.len() - 1]);
        }
    }
}

/// A list made by appending `v` weakly to `base` walks as `v` alone, or as `v`
/// followed by a walk of `base` where the weakly held part was still there.
pub proof fn law_append_weak_prefix<T>(v: T, base: RcList<T>, new: RcList<T>, out: Seq<T>)
    requires
        new@ == seq![(v, base@.len() > 0)] + base@,
    ensures
        may_yield(new@, false, out) <==> (out.len() > 0 && out[0] == v && (out.len() == 1
            || may_yield(base@, false, out.drop_first()))),
{
    let c = new@;
    if may_yield(c, false, out) {
        assert(out.len() > 0);
        assert(out[0] == c[0].0);
        let o = out.drop_first();
        assert forall|i: int| 0 <= i < o.len() implies #[trigger] o[i] == base@[i].0 by {
            assert(o[i] == out[i + 1]);
            assert(c[i + 1] == base@[i]);
        }
        if out.len() > 1 && out.len() < c.len() {
            assert(c[out.len() - 1] == base@[o.len() - 1]);
        }
    }
    if out.len() > 0 && out[0] == v && (out.len() == 1 || may_yield(base@, false, out.drop_first())) {
        let o = out.drop_first();
        if out.len() > 1 {
            assert forall|i: int| 0 <= i < out.len() implies #[trigger] out[i] == c[i].0 by {
                if i > 0 {
                    assert(out[i] == o[i - 1]);
                    assert(c[i] == base@[i - 1]);
                }
            }
            if o.len() < base@.len() {
                assert(c[out.len() - 1] == base@[o.len() - 1]);
            }
        } else {
            assert(out[0] == c[0].0);
        }
    }
}

/// Walking a list with no entries gives nothing.
pub proof fn law_empty_walk<T>(list: RcList<T>, out: Seq<T>)
    requires
        list@.len() == 0,
        may_yield(list@, false, out),
    ensures
        out.len() == 0,
{
}

/// A list whose links are all strong walks as exactly its values.
pub proof fn law_strong_walk_is_whole<T>(list: RcList<T>, out: Seq<T>)
    requires
        all_strong(list@),
    ensures
        may_yield(list@, false, out) <==> out == values(list@),
{
    let c = list@;
    if may_yield(c, false, out) {
        if out.len() < c.len() && out.len() > 0 {
            assert(!c[out.len() - 1].1);
        }
        assert(out =~= values(c));
    }
    if out == values(c) {
        assert(out.len() == c.len());
        assert forall|i: int| 0 <= i < out.len() implies #[trigger] out[i] == c[i].0 by {
            assert(values(c)[i] == c[i].0);
        }
    }
}

/// Two walks of handles with the same chain (one handle walked twice, or a
/// handle and its clone) agree up to the shorter one, which can only have lost
/// a weakly held tail; where every link is strong, they are equal.
pub proof fn law_walks_agree<T>(a: RcList<T>, b: RcList<T>, out_a: Seq<T>, out_b: Seq<T>)
    requires
        a@ == b@,
        may_yield(a@, false, out_a),
        may_yield(b@, false, out_b),
    ensures
        out_a.len() <= out_b.len() ==> out_a == out_b.take(out_a.len() as int),
        out_b.len() <= out_a.len() ==> out_b == out_a.take(out_b.len() as int),
        all_strong(a@) ==> out_a == out_b,
{
    if out_a.len() <= out_b.len() {
        assert(out_a =~= out_b.take(out_a.len() as int));
    }
    if out_b.len() <= out_a.len() {
        assert(out_b =~= out_a.take(out_b.len() as int));
    }
    if all_strong(a@) {
        law_strong_walk_is_whole(a, out_a);
        law_strong_walk_is_whole(b, out_b);
    }
}

} // verus!
