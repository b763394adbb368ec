//! Stacking capabilities ("aspects") around a context.
//!
//! A `ContextWrapper` holds one aspect and a child context. Fetching a
//! capability by type returns the wrapper's own aspect when the type is the
//! aspect's, and otherwise asks the child. Which layer answers is fixed at
//! compile time by a type-level path: `Here` for the wrapper's own aspect,
//! `There<I>` for a capability that the child reaches by path `I`. When a
//! type occurs in one layer only, the compiler infers the path.
//!
//! When a type occurs in more than one layer, the compiler cannot pick a
//! layer by itself and refuses a fetch without a path. Without
//! specialization, Rust has no way to let the closest layer win silently.
//! The caller then writes the path, and `Here` is the closest match.
use vstd::prelude::*;
use core::marker::PhantomData;

verus! {

/// Path to the outermost layer of a context stack.
pub struct Here {
    _private: (),
}

/// Path to a capability of the child context, which reaches it by `I`.
pub struct There<I> {
    _path: PhantomData<I>,
}

/// Gives mutable access to a capability of type `T`, found along path `I`.
pub trait TransparentContext<T, I> {
    /// The capability that `get` hands out.
    spec fn capability(&self) -> T;

    /// Whether `after` holds what `self` holds, but for the capability.
    spec fn rest_unchanged(&self, after: &Self) -> bool;

    fn get(&mut self) -> (r: &mut T)
        ensures
            *r == old(self).capability(),
            final(self).capability() == *final(r),
            old(self).rest_unchanged(&*final(self)),
    ;
}

/// Adds the aspect `A` to the child context `C`.
pub struct ContextWrapper<'a, 'c, A, C> {
    aspect: &'a mut A,
    child_context: &'c mut C,
}

impl<'a, 'c, A, C> ContextWrapper<'a, 'c, A, C> {
    /// The aspect that this layer adds.
    pub closed spec fn aspect(&self) -> A {
        *self.aspect
    }

    /// Everything beneath this layer.
    pub closed spec fn child(&self) -> C {
        *self.child_context
    }

    pub fn new(aspect: &'a mut A, child_context: &'c mut C) -> (r: Self)
        ensures
            r.aspect() == *old(aspect),
            r.child() == *old(child_context),
    {
        ContextWrapper { aspect, child_context }
    }
}

impl<'a, 'c, A, C> TransparentContext<A, Here> for ContextWrapper<'a, 'c, A, C> {
    open spec fn capability(&self) -> A {
        self.aspect()
    }

    /// The child is not even looked at.
    open spec fn rest_unchanged(&self, after: &Self) -> bool {
        after.child() == self.child()
    }

    fn get(&mut self) -> (r: &mut A) {
        self.aspect
    }
}

impl<'a, 'c, A, C, T, I> TransparentContext<T, There<I>> for ContextWrapper<'a, 'c, A, C> where
    C: TransparentContext<T, I>,
 {
    open spec fn capability(&self) -> T {
        self.child().capability()
    }

    open spec fn rest_unchanged(&self, after: &Self) -> bool {
        &&& after.aspect() == self.aspect()
        &&& self.child().rest_unchanged(&after.child())
    }

    fn get(&mut self) -> (r: &mut T) {
        self.child_context.get()
    }
}

/// In a stack of three aspects `A` over `B` over `D` around a base `X`,
/// fetching each type gives exactly that layer's aspect: `A` the outermost,
/// read without looking at the child, `B` the next, `D` the innermost. What a
/// fetch gives depends on its own layer only: two stacks whose layers agree
/// on one aspect give the same value for it, whatever the other layers hold.
/// And a fetch, which leaves all but its own capability as it was, leaves
/// the other two aspects as they were.
pub proof fn lemma_fetch_by_type<'a1, 'c1, 'a2, 'c2, 'a3, 'c3, A, B, D, X>(
    s: ContextWrapper<'a1, 'c1, A, ContextWrapper<'a2, 'c2, B, ContextWrapper<'a3, 'c3, D, X>>>,
    t: ContextWrapper<'a1, 'c1, A, ContextWrapper<'a2, 'c2, B, ContextWrapper<'a3, 'c3, D, X>>>,
)
    ensures
        TransparentContext::<A, Here>::capability(&s) == s.aspect(),
        TransparentContext::<B, There<Here>>::capability(&s) == s.child().aspect(),
        TransparentContext::<D, There<There<Here>>>::capability(&s) == s.child().child().aspect(),
        s.aspect() == t.aspect() ==> TransparentContext::<A, Here>::capability(&s)
            == TransparentContext::<A, Here>::capability(&t),
        s.child().aspect() == t.child().aspect() ==> TransparentContext::<B, There<Here>>::capability(&s)
            == TransparentContext::<B, There<Here>>::capability(&t),
        s.child().child().aspect() == t.child().child().aspect() ==> TransparentContext::<
            D,
            There<There<Here>>,
        >::capability(&s) == TransparentContext::<D, There<There<Here>>>::capability(&t),
        TransparentContext::<A, Here>::rest_unchanged(&s, &t) ==> t.child().aspect() == s.child().aspect()
            && t.child().child().aspect() == s.child().child().aspect(),
        TransparentContext::<B, There<Here>>::rest_unchanged(&s, &t) ==> t.aspect() == s.aspect()
            && t.child().child().aspect() == s.child().child().aspect(),
        TransparentContext::<D, There<There<Here>>>::rest_unchanged(&s, &t) ==> t.aspect() == s.aspect()
            && t.child().aspect() == s.child().aspect(),
{
}

/// Where the same type is the aspect of two layers, the path `Here` reaches
/// the outermost one, and fetching along it leaves the inner one as it was.
pub proof fn lemma_repeated_type_outermost<'a1, 'c1, 'a2, 'c2, A, X>(
    s: ContextWrapper<'a1, 'c1, A, ContextWrapper<'a2, 'c2, A, X>>,
    t: ContextWrapper<'a1, 'c1, A, ContextWrapper<'a2, 'c2, A, X>>,
)
    ensures
        TransparentContext::<A, Here>::capability(&s) == s.aspect(),
        TransparentContext::<A, Here>::rest_unchanged(&s, &t) ==> t.child().aspect() == s.child().aspect(),
{
}

} // verus!
