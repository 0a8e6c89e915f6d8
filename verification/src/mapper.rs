//! Functions from one message type to another.
use vstd::prelude::*;

verus! {

/// Whether `function` can give `to`, item by item, when it is applied to
/// each item of `from` in order: as many as there were, in the same order.
pub open spec fn gives_all<A, B, F: Fn(A) -> B>(function: F, from: Seq<A>, to: Seq<B>) -> bool {
    &&& from.len() == to.len()
    &&& forall|i: int| 0 <= i < from.len() ==> call_ensures(function, (from[i],), #[trigger] to[i])
}

/// A function that can be applied to every `A` and gives a `B`.
#[verifier::reject_recursive_types(A)]
#[verifier::reject_recursive_types(B)]
#[verifier::reject_recursive_types(F)]
pub struct Mapper<A, B, F: Fn(A) -> B> {
    function: F,
    marker: core::marker::PhantomData<(A, B)>,
}

impl<A, B, F: Fn(A) -> B> Mapper<A, B, F> {
    #[verifier::type_invariant]
    spec fn total(&self) -> bool {
        forall|a: A| call_requires(self.function, (a,))
    }

    /// Whether the function can give `b` when it is applied to `a`.
    pub closed spec fn maps(&self, a: A, b: B) -> bool {
        call_ensures(self.function, (a,), b)
    }

    /// Whether the function can give `to`, item by item, when it is
    /// applied to each item of `from` in order.
    pub open spec fn maps_all(&self, from: Seq<A>, to: Seq<B>) -> bool {
        &&& from.len() == to.len()
        &&& forall|i: int| 0 <= i < from.len() ==> self.maps(from[i], #[trigger] to[i])
    }

    /// Whether this is `function`, wrapped: whether it gives what
    /// `function` gives.
    pub open spec fn wraps(&self, function: F) -> bool {
        forall|a: A, b: B| #[trigger] self.maps(a, b) <==> call_ensures(function, (a,), b)
    }

    /// A wrapped function gives what the function gives.
    pub proof fn lemma_wraps(&self, function: F, from: Seq<A>, to: Seq<B>)
        requires
            self.wraps(function),
        ensures
            self.maps_all(from, to) <==> gives_all(function, from, to),
    {
        if self.maps_all(from, to) {
            assert forall|i: int| 0 <= i < from.len() implies call_ensures(
                function,
                (from[i],),
                #[trigger] to[i],
            ) by {
                assert(self.maps(from[i], to[i]));
            }
        }
        if gives_all(function, from, to) {
            assert forall|i: int| 0 <= i < from.len() implies self.maps(
                from[i],
                #[trigger] to[i],
            ) by {
                assert(call_ensures(function, (from[i],), to[i]));
            }
        }
    }

    /// Wraps a function that accepts every `A`.
    pub fn new(function: F) -> (mapper: Self)
        requires
            forall|a: A| call_requires(function, (a,)),
        ensures
            mapper.wraps(function),
    {
        Mapper { function, marker: core::marker::PhantomData }
    }

    /// Applies the function.
    pub fn apply(&self, a: A) -> (b: B)
        ensures
            self.maps(a, b),
    {
        proof {
            use_type_invariant(self);
        }
        (self.function)(a)
    }

    /// Applies the function to each of `from` in order and appends the
    /// results to `to`: as many as there were, in the same order.
    pub fn apply_all(&self, from: Vec<A>, to: &mut Vec<B>)
        ensures
            old(to)@.is_prefix_of(final(to)@),
            self.maps_all(from@, final(to)@.skip(old(to)@.len() as int)),
    {
        let ghost start = to@.len() as int;
        for message in it: from
            invariant
                start == old(to)@.len(),
                to@.len() == start + it.index(),
                old(to)@.is_prefix_of(to@),
                it.seq() == from@,
                forall|k: int| 0 <= k < it.index() ==> self.maps(from@[k], #[trigger] to@[start + k]),
        {
            let mapped = self.apply(message);
            to.push(mapped);
        }
        assert forall|i: int| 0 <= i < from@.len() implies self.maps(
            from@[i],
            #[trigger] to@.skip(start)[i],
        ) by {
            assert(to@.skip(start)[i] == to@[start + i]);
        }
    }
}

} // verus!
