//! The lifecycle of a lazily initialized cell, as a tagged union, and the
//! single transition over it.

use vstd::prelude::*;

verus! {

/// The stage a cell is at.
///
/// The only transitions are `Uninit` to `Initializing` to `Init`, they
/// happen at most once over a cell's lifetime, and `Init` is terminal:
/// `init` is the one operation that moves between stages, it starts only
/// from `Uninit`, and it is run under a barrier that executes it at most
/// once.
pub enum __State<T, F> {
    /// The final, immutable computed value.
    Init(T),
    /// The not-yet-run initializer.
    Uninit(F),
    /// Transient marker while the initializer runs; never observed
    /// through the public interface.
    Initializing,
}

impl<T, F: FnOnce() -> T> __State<T, F> {
    /// The single mutating transition: consumes the initializer, runs it,
    /// and stores the computed value. The caller must hold exclusive
    /// access and arrive in the `Uninit` stage; the barrier around the
    /// cell guarantees both.
    pub fn init(&mut self)
        requires
            (*old(self)) is Uninit,
            call_requires((*old(self))->Uninit_0, ()),
        ensures
            (*final(self)) is Init,
            call_ensures((*old(self))->Uninit_0, (), (*final(self))->Init_0),
    {
        let mut taken = __State::Initializing;
        core::mem::swap(self, &mut taken);
        let f = match taken {
            __State::Uninit(f) => f,
            _ => vstd::pervasive::unreached(),
        };
        let value = f();
        *self = __State::Init(value);
    }
}

} // verus!
