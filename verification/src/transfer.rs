//! One-time ownership transfer into an interrupt context.
//!
//! A `TransferCell` starts out empty (`Uninitialized`), accepts exactly one
//! move-in of a value (typically from initialization code, strictly before
//! the owning interrupt is unmasked), and thereafter only hands the value
//! out through short, mutually-exclusive `try_lock` callbacks run from the
//! bound interrupt's context. A second move-in is rejected; a lock attempt
//! before the move-in is rejected without running the callback.

use vstd::prelude::*;

verus! {

/// Error of `TransferCell::try_move_in`: the cell already holds a value,
/// which is left intact.
#[derive(Clone, Copy, Debug, PartialEq, Eq, Structural)]
pub struct AlreadyInitialized;

/// Error of `TransferCell::try_lock`: no value has been moved in yet, so
/// there is nothing to lock and the callback is not run.
#[derive(Clone, Copy, Debug, PartialEq, Eq, Structural)]
pub struct NotInitialized;

/// The state transition of a move-in attempt: it fills an empty cell and
/// leaves an owned cell unchanged.
pub open spec fn spec_move_in<T>(state: Option<T>, value: T) -> Option<T> {
    if state is None {
        Some(value)
    } else {
        state
    }
}

/// A cell that accepts exactly one move-in of a value and afterwards only
/// grants exclusive, serialized access to it.
///
/// The cell is bound at construction to the interrupt that will own the
/// value. Exclusion is not enforced by a runtime lock but by the hardware's
/// interrupt discipline: the move-in must happen strictly before that
/// interrupt is unmasked, and on a single core at most one instance of the
/// handler runs at a time. That sequencing is the caller's obligation; the
/// cell turns a violation into a rejected call rather than a data race.
pub struct TransferCell<T> {
    value: Option<T>,
    irq: u16,
}

impl<T> TransferCell<T> {
    /// The value held, `None` while the cell is uninitialized.
    pub closed spec fn contents(self) -> Option<T> {
        self.value
    }

    /// The interrupt the cell was bound to at construction.
    pub closed spec fn interrupt_id(self) -> u16 {
        self.irq
    }

    /// True before any value was moved in.
    pub open spec fn is_uninitialized(self) -> bool {
        self.contents() is None
    }

    /// True once a value was moved in; it stays true forever after.
    pub open spec fn is_owned(self) -> bool {
        self.contents() is Some
    }

    /// Constructs the cell in the uninitialized state, bound to the
    /// interrupt line `target_irq`. Pure: no side effects.
    pub fn new_uninitialized(target_irq: u16) -> (c: Self)
        ensures
            c.is_uninitialized(),
            c.interrupt_id() == target_irq,
    {
        TransferCell { value: None, irq: target_irq }
    }

    /// Returns the interrupt line the cell was bound to at construction,
    /// the one the surrounding wiring may unmask only after the move-in.
    pub fn target_interrupt(&self) -> (irq: u16)
        ensures
            irq == self.interrupt_id(),
    {
        self.irq
    }

    /// Moves `value` into the cell. Succeeds only on the first call; any
    /// later attempt fails with `AlreadyInitialized` and leaves the earlier
    /// value untouched.
    ///
    /// Must be called before the bound interrupt is unmasked; that ordering
    /// cannot be checked here and is the surrounding wiring's obligation.
    pub fn try_move_in(&mut self, value: T) -> (r: Result<(), AlreadyInitialized>)
        ensures
            final(self).contents() == spec_move_in(old(self).contents(), value),
            final(self).interrupt_id() == old(self).interrupt_id(),
            r == Ok::<(), AlreadyInitialized>(()) <==> old(self).is_uninitialized(),
            r == Err::<(), AlreadyInitialized>(AlreadyInitialized) <==> old(self).is_owned(),
    {
        if self.value.is_none() {
            self.value = Some(value);
            Ok(())
        } else {
            Err(AlreadyInitialized)
        }
    }

    /// Exclusively binds the owned value for the duration of `f` and
    /// returns `f`'s result; the callback takes the value and hands back
    /// the (possibly updated) value to store. If nothing was moved in yet,
    /// fails with `NotInitialized` without running `f`.
    pub fn try_lock<R, F: FnOnce(T) -> (T, R)>(&mut self, f: F) -> (r: Result<R, NotInitialized>)
        requires
            old(self).is_owned() ==> call_requires(f, (old(self).contents()->0,)),
        ensures
            final(self).interrupt_id() == old(self).interrupt_id(),
            old(self).is_uninitialized() ==> r == Err::<R, NotInitialized>(NotInitialized)
                && final(self).contents() == old(self).contents(),
            old(self).is_owned() ==> final(self).is_owned() && (r matches Ok(res)
                && call_ensures(f, (old(self).contents()->0,), (final(self).contents()->0, res))),
    {
        match self.value.take() {
            Some(v) => {
                let (v2, res) = f(v);
                self.value = Some(v2);
                Ok(res)
            },
            None => Err(NotInitialized),
        }
    }
}

/// One-time move-in law: on a fresh cell the first move-in of `a` is the
/// accepted one — `try_move_in` returns `Ok` exactly on an uninitialized
/// cell — a second move-in of `b` finds the cell owned and fails, and the
/// cell holds `a` ever after: a later lock observes `a`, never `b`.
pub proof fn lemma_one_time_move_in<T>(a: T, b: T)
    ensures
        spec_move_in(None::<T>, a) == Some(a),
        spec_move_in(None::<T>, a) is Some,
        spec_move_in(spec_move_in(None::<T>, a), b) == Some(a),
{
}

} // verus!
