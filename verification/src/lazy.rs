//! The lazily initialized cell: a barrier, a state slot, and the forcing
//! logic that ties them together.

use vstd::prelude::*;

use crate::state::__State;

verus! {

/// The aliasing-safe wrapper around the cell's state. The state is born
/// in `pending` behind a mutex, which grants the one transition exclusive
/// access; the transition moves it, now in its final stage, into `done`,
/// a write-once slot that any number of threads may then read without a
/// lock. Verus does not look inside this struct: the discipline that
/// makes the pair sound is the barrier in [`Lazy`], under which the one
/// take, the verified transition and the one publish happen.
#[verifier::external_body]
#[verifier::reject_recursive_types(T)]
#[verifier::reject_recursive_types(F)]
struct StateSlot<T, F> {
    pending: parking_lot::Mutex<Option<__State<T, F>>>,
    done: std::sync::OnceLock<__State<T, F>>,
}

/// Relies on `parking_lot::Mutex::new` and `std::sync::OnceLock::new`:
/// builds a slot whose pending side holds the given starting state and
/// whose write-once side is still empty.
#[verifier::external_body]
fn slot_new<T, F>(st: __State<T, F>) -> StateSlot<T, F> {
    StateSlot { pending: parking_lot::Mutex::new(Some(st)), done: std::sync::OnceLock::new() }
}

/// Takes the pending state out of the cell, if it is still there.
/// Relies on `parking_lot::Mutex::lock`: exclusive access to the pending
/// side. That side holds the starting state built by [`Lazy::new`] — the
/// cell's own initializer, callable as `new` required — until the one
/// take under the barrier, and nothing afterwards, which is what the
/// contract states of every possible outcome.
#[verifier::external_body]
fn slot_take<T, F: FnOnce() -> T>(this: &Lazy<T, F>) -> (r: Option<__State<T, F>>)
    ensures
        r matches Some(st) ==> {
            &&& st is Uninit
            &&& st->Uninit_0 == this.initializer()
            &&& call_requires(this.initializer(), ())
        },
{
    this.slot.pending.lock().take()
}

/// Publishes the final state for every later read. Relies on
/// `std::sync::OnceLock::set`: the write-once side is empty until this
/// one publish under the barrier, so the call stores `st` there. The
/// `requires` keeps the discipline honest: only the final stage, with a
/// payload the cell's initializer could produce, is ever published.
#[verifier::external_body]
fn slot_publish<T, F: FnOnce() -> T>(this: &Lazy<T, F>, st: __State<T, F>)
    requires
        st is Init,
        call_ensures(this.initializer(), (), st->Init_0),
{
    let _ = this.slot.done.set(st);
}

/// The barrier-guarded transition, in verified code: if the pending
/// state is still there, run the state machine's single step on it and
/// publish the outcome. Verus checks here that the step starts from the
/// `Uninit` stage with a callable initializer (from [`slot_take`]'s
/// contract) and that only a legitimate final stage is published (from
/// [`slot_publish`]'s precondition).
fn run_transition<T, F: FnOnce() -> T>(this: &Lazy<T, F>) {
    if let Some(mut st) = slot_take(this) {
        st.init();
        slot_publish(this, st);
    }
}

/// Makes sure the cell's single transition has happened, then reads the
/// published final state. Relies on `parking_lot::Once::call_once`: the
/// handed closure — which only calls the verified [`run_transition`] —
/// runs at most once across all callers, under exclusive access, and
/// every caller returns only once that one execution has completed, its
/// writes ordered before every such return (a happens-before relation).
/// And on `std::sync::OnceLock::get`: once set, the slot returns a
/// reference to the same value forever. So on every cell, fresh or
/// already forced, the write-once side holds the final stage by the time
/// it is read — a fresh cell is initialized here, not refused — and its
/// payload is what the one run of the initializer produced.
///
/// Two failure paths exist, both reached only when user code has already
/// failed: if the initializer panics, the barrier is poisoned and this
/// and every later call panic too, so no caller proceeds past a failed
/// initialization; and if the initializer re-enters the same cell, the
/// reentrant caller parks on its own barrier forever — an undiagnosed
/// hang, where a detected abort would serve better, but detection would
/// mean rebuilding the externally supplied barrier.
#[verifier::external_body]
fn force_slot<T, F: FnOnce() -> T>(this: &Lazy<T, F>) -> (r: &__State<T, F>)
    ensures
        (*r) is Init,
        call_ensures(this.initializer(), (), (*r)->Init_0),
{
    this.once.call_once(|| run_transition(this));
    this.slot.done.get().unwrap()
}

/// A value which is initialized on the first access.
///
/// The cell owns its initializer until the single barrier-guarded
/// transition consumes it, and owns the computed value from then on.
/// Forcing is idempotent: the initializer runs at most once, every caller
/// of [`Lazy::force`] returns a reference to the one computed value, and
/// a caller blocks only while another thread is running the initializer.
#[verifier::reject_recursive_types(T)]
#[verifier::reject_recursive_types(F)]
pub struct Lazy<T, F = fn() -> T> {
    once: parking_lot::Once,
    slot: StateSlot<T, F>,
    init_fn: Ghost<F>,
}

impl<T, F: FnOnce() -> T> Lazy<T, F> {
    /// The initializer this cell was created with. The fields of the cell
    /// are private and set only by [`Lazy::new`], so this always names
    /// the closure held in the cell's starting state.
    pub closed spec fn initializer(self) -> F {
        self.init_fn@
    }

    /// Creates a new lazy value with the given initializing function. No
    /// side effect of the initializer happens here: it is deferred until
    /// the first call of [`Lazy::force`].
    pub fn new(f: F) -> (r: Lazy<T, F>)
        requires
            call_requires(f, ()),
        ensures
            r.initializer() == f,
    {
        let ghost g = f;
        Lazy {
            once: parking_lot::Once::new(),
            slot: slot_new(__State::Uninit(f)),
            init_fn: Ghost(g),
        }
    }

    /// Forces the evaluation of this lazy value and returns a reference
    /// to the result: a value the cell's initializer produced on its one
    /// run. The barrier lets exactly one racing caller perform the
    /// transition; every other caller returns only after that single run
    /// has completed, and reads the same published value.
    ///
    /// An initializer that fails poisons the cell: this and every later
    /// call fail too, rather than proceeding with an uninitialized cell.
    /// An initializer that re-enters `force` on its own cell is a fatal
    /// programming error; here it hangs the caller on its own barrier
    /// without diagnosis — a deviation from the intended detect-and-abort
    /// handling, inherited from the externally supplied barrier.
    pub fn force(this: &Lazy<T, F>) -> (r: &T)
        ensures
            call_ensures(this.initializer(), (), *r),
    {
        let st = force_slot(this);
        match st {
            __State::Init(value) => value,
            _ => vstd::pervasive::unreached(),
        }
    }
}

/// Transparent read access, equivalent to [`Lazy::force`]: lets the cell
/// be used wherever a `T` is expected by implicitly forcing it.
impl<T, F: FnOnce() -> T> core::ops::Deref for Lazy<T, F> {
    type Target = T;

    fn deref(&self) -> (r: &T)
        ensures
            call_ensures(self.initializer(), (), *r),
    {
        Lazy::force(self)
    }
}

/// All callers of [`Lazy::force`] on one cell observe the identical
/// resulting value, stated for a cell whose initializer determines its
/// output: any two values the contract of `force` admits for that cell
/// are equal. The other half of the guarantee, that the initializer's
/// body executes only once however many callers race, lies with the
/// barrier and cannot be restated over these contracts.
pub proof fn lemma_force_agrees<T, F: FnOnce() -> T>(cell: Lazy<T, F>, a: T, b: T)
    requires
        forall|x: T, y: T|
            call_ensures(cell.initializer(), (), x) && call_ensures(cell.initializer(), (), y)
                ==> x == y,
        call_ensures(cell.initializer(), (), a),
        call_ensures(cell.initializer(), (), b),
    ensures
        a == b,
{
}

} // verus!
