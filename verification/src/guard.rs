//! Critical-section guarded access to a shared peripheral handle.
//!
//! A `GuardedCell` wraps a value that both foreground code and an interrupt
//! handler touch — typically a whole UART context. Every mutation happens
//! inside a critical section: a dynamic scope during which no interrupt of
//! equal or lower priority can preempt the running code, witnessed by a
//! `CriticalSection` token.

use vstd::prelude::*;

verus! {

/// Witness that the holder runs inside a critical section.
///
/// While a token is live, no interrupt of a priority at or below the
/// current execution context may run. The library cannot mask interrupts
/// itself; the platform glue that constructs the token must disable
/// preemption first and re-enable it when the token is dropped. On a single
/// core, a second contender is an interrupt that simply does not fire until
/// the section ends — there is no spin-wait.
pub struct CriticalSection {
    witness: (),
}

/// Enters a critical section and returns the token witnessing it.
pub fn enter_critical_section() -> CriticalSection {
    CriticalSection { witness: () }
}

/// A cell holding at most one value, mutable only inside a critical
/// section.
///
/// Foreground code stores the shared value once during setup; afterwards
/// both the interrupt handler and foreground code reach it only through
/// `with`, which brackets the access in a critical section of its own.
pub struct GuardedCell<T> {
    value: Option<T>,
}

impl<T> GuardedCell<T> {
    /// The value held, `None` while the cell is empty.
    pub closed spec fn contents(self) -> Option<T> {
        self.value
    }

    /// True once a value has been stored.
    pub open spec fn is_occupied(self) -> bool {
        self.contents() is Some
    }

    /// Creates an empty cell. A value is stored later, during setup, once
    /// the wrapped peripheral exists.
    pub fn new_empty() -> (c: Self)
        ensures
            c.contents() is None,
    {
        GuardedCell { value: None }
    }

    /// Whether a value has been stored: the condition callers of `with`
    /// must have established during setup.
    pub fn has_value(&self) -> (r: bool)
        ensures
            r == self.is_occupied(),
    {
        self.value.is_some()
    }

    /// Stores `value`, replacing whatever the cell held. Mutates the cell,
    /// so it demands the critical-section token.
    pub fn put(&mut self, cs: &CriticalSection, value: T)
        ensures
            final(self).contents() == Some(value),
    {
        let _ = cs;
        self.value = Some(value);
    }

    /// Acquires a critical section, hands the wrapped value to `f`, stores
    /// the value `f` returns, releases the section, and passes `f`'s result
    /// through. The caller's contract is that the value is present — setup
    /// has run — so `with` on an empty cell is excluded here rather than
    /// made to panic.
    pub fn with<R, F: FnOnce(T) -> (T, R)>(&mut self, f: F) -> (r: R)
        requires
            old(self).is_occupied(),
            call_requires(f, (old(self).contents()->0,)),
        ensures
            final(self).is_occupied(),
            call_ensures(f, (old(self).contents()->0,), (final(self).contents()->0, r)),
    {
        let cs = enter_critical_section();
        let owned = self.value.take();
        match owned {
            Some(v) => {
                let (v2, res) = f(v);
                self.value = Some(v2);
                let _ = cs;
                res
            },
            None => {
                // Unreachable: the caller's contract says the value is present.
                proof {
                    assert(false);
                }
                unreached()
            },
        }
    }
}

} // verus!
