//! Two-way bindings between an application state and one of its values.
use vstd::prelude::*;

verus! {

/// A getter and a setter that read and write one value of type `T` inside a
/// state of type `State`.
pub struct Binding<State, T, G, S> {
    pub get: G,
    pub set: S,
    pub marker: std::marker::PhantomData<(State, T)>,
}

impl<State, T, G: Fn(&State) -> T, S: Fn(&mut State, T)> Binding<State, T, G, S> {
    /// Both closures accept every input.
    pub open spec fn ready(&self) -> bool {
        &&& forall|s: &State| #[trigger] self.get.requires((s,))
        &&& forall|s: &mut State, v: T| #[trigger] self.set.requires((s, v))
    }

    /// A binding made of a getter and a setter.
    pub fn new(get: G, set: S) -> (b: Self)
        ensures
            b.get == get,
            b.set == set,
    {
        Binding { get, set, marker: std::marker::PhantomData }
    }

    /// Reads the bound value out of `state`.
    pub fn get(&self, state: &State) -> (value: T)
        requires
            self.ready(),
        ensures
            self.get.ensures((state,), value),
    {
        (self.get)(state)
    }

    /// Writes `value` into `state`.
    pub fn set(&self, state: &mut State, value: T)
        requires
            self.ready(),
        ensures
            exists|m: &mut State|
                #[trigger] self.set.ensures((m, value), ()) && *m == *old(state) && *final(m)
                    == *final(state),
    {
        (self.set)(state, value)
    }

    /// Reads the bound value, lets `f` change it, and writes it back. `f`
    /// need only accept the values the getter can give for `state`.
    pub fn update<F: Fn(&mut T)>(&self, state: &mut State, f: F)
        requires
            self.ready(),
            forall|v: &mut T| self.get.ensures((&*old(state),), *v) ==> #[trigger] f.requires((v,)),
        ensures
            exists|read: T, written: T, mf: &mut T, ms: &mut State|
                #[trigger] self.get.ensures((&*old(state),), read)
                    && #[trigger] f.ensures((mf,), ()) && *mf == read && *final(mf) == written
                    && #[trigger] self.set.ensures((ms, written), ()) && *ms == *old(state)
                    && *final(ms) == *final(state),
    {
        let mut temp = (self.get)(state);
        f(&mut temp);
        (self.set)(state, temp)
    }
}

impl<State, T, G: Clone, S: Clone> Clone for Binding<State, T, G, S> {
    fn clone(&self) -> (b: Self)
        ensures
            cloned(self.get, b.get),
            cloned(self.set, b.set),
    {
        Binding { get: self.get.clone(), set: self.set.clone(), marker: std::marker::PhantomData }
    }
}

/// Relates a value to the values that cloning it may give.
pub trait CloneSource: Sized {
    spec fn has_clone(&self, copy: Self) -> bool;
}

impl<T: Clone> CloneSource for T {
    open spec fn has_clone(&self, copy: T) -> bool {
        cloned(*self, copy)
    }
}

impl<State, T: Clone> Binding<State, T, (), ()> {
    /// A binding that always reads a clone of `value` and ignores writes.
    pub fn constant(value: T) -> (b: Binding<State, T, impl Fn(&State) -> T, impl Fn(&mut State, T)>)
        ensures
            b.ready(),
            forall|s: &State, r: T| #[trigger] b.get.ensures((s,), r) ==> cloned(value, r),
            forall|m: &mut State, v: T| #[trigger] b.set.ensures((m, v), ()) ==> *final(m) == *m,
    {
        let get = move |_s: &State| -> (r: T)
            ensures
                value.has_clone(r),
            { value.clone() };
        let set = |s: &mut State, _v: T|
            ensures
                *final(s) == *old(s),
            {};
        Binding { get, set, marker: std::marker::PhantomData }
    }
}

} // verus!
