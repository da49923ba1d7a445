use vstd::prelude::*;

verus! {

/// A request that is refined by setter calls, each of which writes one field.
pub trait Settable: Sized {
    /// One setter call, as a value: which setter, and with what argument.
    type Setter;

    /// The field that a setter call writes.
    spec fn target(setter: Self::Setter) -> int;

    /// The request after one setter call.
    spec fn set(self, setter: Self::Setter) -> Self;

    /// Two setter calls that write different fields can be swapped.
    proof fn lemma_setters_commute(self, a: Self::Setter, b: Self::Setter)
        requires
            Self::target(a) != Self::target(b),
        ensures
            self.set(a).set(b) == self.set(b).set(a),
    ;
}

/// The request after a chain of setter calls, applied first to last.
pub open spec fn set_all<R: Settable>(req: R, setters: Seq<R::Setter>) -> R
    decreases setters.len(),
{
    if setters.len() == 0 {
        req
    } else {
        set_all(req, setters.drop_last()).set(setters.last())
    }
}

/// No two calls of the chain write the same field.
pub open spec fn no_field_twice<R: Settable>(setters: Seq<R::Setter>) -> bool {
    forall|i: int, j: int|
        0 <= i < j < setters.len() ==> R::target(#[trigger] setters[i]) != R::target(
            #[trigger] setters[j],
        )
}

proof fn lemma_no_field_twice_no_duplicates<R: Settable>(setters: Seq<R::Setter>)
    requires
        no_field_twice::<R>(setters),
    ensures
        setters.no_duplicates(),
{
    assert forall|i: int, j: int|
        0 <= i < setters.len() && 0 <= j < setters.len() && i != j implies setters[i]
        != setters[j] by {
        if i < j {
            assert(R::target(setters[i]) != R::target(setters[j]));
        } else {
            assert(R::target(setters[j]) != R::target(setters[i]));
        }
    }
}

/// A reordering of a chain that writes no field twice writes no field twice.
proof fn lemma_no_field_twice_reordered<R: Settable>(s1: Seq<R::Setter>, s2: Seq<R::Setter>)
    requires
        no_field_twice::<R>(s1),
        s1.to_multiset() == s2.to_multiset(),
    ensures
        no_field_twice::<R>(s2),
{
    s1.to_multiset_ensures();
    s2.to_multiset_ensures();
    lemma_no_field_twice_no_duplicates::<R>(s1);
    s1.lemma_multiset_has_no_duplicates();
    s2.lemma_multiset_has_no_duplicates_conv();
    assert forall|i: int, j: int| 0 <= i < j < s2.len() implies R::target(s2[i]) != R::target(
        s2[j],
    ) by {
        assert(s2.contains(s2[i]) && s2.contains(s2[j]));
        assert(s1.to_multiset().count(s2[i]) > 0 && s1.to_multiset().count(s2[j]) > 0);
        assert(s1.contains(s2[i]) && s1.contains(s2[j]));
        let p = s1.index_of(s2[i]);
        let q = s1.index_of(s2[j]);
        assert(s1[p] != s1[q]);
        if p < q {
            assert(R::target(s1[p]) != R::target(s1[q]));
        } else {
            assert(R::target(s1[q]) != R::target(s1[p]));
        }
    }
}

/// In a chain that writes no field twice, any call can be moved to the end.
proof fn lemma_move_to_end<R: Settable>(req: R, setters: Seq<R::Setter>, k: int)
    requires
        no_field_twice::<R>(setters),
        0 <= k < setters.len(),
    ensures
        set_all(req, setters) == set_all(req, setters.remove(k)).set(setters[k]),
    decreases setters.len(),
{
    let front = setters.drop_last();
    if k == setters.len() - 1 {
        assert(setters.remove(k) =~= front);
    } else {
        assert(no_field_twice::<R>(front)) by {
            assert forall|i: int, j: int| 0 <= i < j < front.len() implies R::target(front[i])
                != R::target(front[j]) by {
                assert(front[i] == setters[i] && front[j] == setters[j]);
            }
        }
        lemma_move_to_end(req, front, k);
        assert(front[k] == setters[k]);
        assert(R::target(setters[k]) != R::target(setters.last()));
        set_all(req, front.remove(k)).lemma_setters_commute(setters[k], setters.last());
        let rest = setters.remove(k);
        assert(rest.drop_last() =~= front.remove(k));
        assert(rest.last() == setters.last());
    }
}

proof fn lemma_order_of_both<R: Settable>(req: R, s1: Seq<R::Setter>, s2: Seq<R::Setter>)
    requires
        no_field_twice::<R>(s1),
        no_field_twice::<R>(s2),
        s1.to_multiset() == s2.to_multiset(),
    ensures
        set_all(req, s1) == set_all(req, s2),
    decreases s1.len(),
{
    s1.to_multiset_ensures();
    s2.to_multiset_ensures();
    if s1.len() == 0 {
    } else {
        let last = s1.last();
        let front = s1.drop_last();
        assert(s1.contains(last));
        assert(s2.to_multiset().count(last) > 0);
        let k = s2.index_of(last);
        let rest = s2.remove(k);
        lemma_move_to_end(req, s2, k);
        assert(front =~= s1.remove(s1.len() - 1));
        assert(front.to_multiset() == rest.to_multiset());
        assert(no_field_twice::<R>(front)) by {
            assert forall|i: int, j: int| 0 <= i < j < front.len() implies R::target(front[i])
                != R::target(front[j]) by {
                assert(front[i] == s1[i] && front[j] == s1[j]);
            }
        }
        lemma_no_field_twice_reordered::<R>(front, rest);
        lemma_order_of_both(req, front, rest);
    }
}

/// The order of a chain of setter calls does not matter, as long as the
/// chain writes no field twice: any reordering of it leaves the request with
/// the same field values.
pub proof fn lemma_order_is_irrelevant<R: Settable>(req: R, s1: Seq<R::Setter>, s2: Seq<R::Setter>)
    requires
        no_field_twice::<R>(s1),
        s1.to_multiset() == s2.to_multiset(),
    ensures
        set_all(req, s1) == set_all(req, s2),
{
    lemma_no_field_twice_reordered::<R>(s1, s2);
    lemma_order_of_both(req, s1, s2);
}

} // verus!
