//! Process-wide ownership bookkeeping for the hardware resources.
//!
//! Two guards live here. `PinAllocator` is the per-pin ownership table: one
//! slot per supported pin number, at most one live allocation per pin at any
//! time. `ControllerSlot` is the flag behind the controller singleton: at
//! most one live register-block controller per process. Acquire and release
//! are test-and-set transitions; a duplicate acquire or a double release is a
//! programming error and surfaces as a `ResourceConflict`, never silently.

use vstd::prelude::*;

use crate::registers::GPIO_MAX_BCM_NUMBER;
use crate::registers::GPIO_PIN_COUNT;

verus! {

/// The programming-error class of failures: a resource was acquired while
/// already live, or released while already free. Callers treat these as
/// fatal, not as transient conditions.
#[derive(Clone, Copy, PartialEq, Eq, Structural, Debug)]
pub enum ResourceConflict {
    /// A second controller was requested while one is live.
    ControllerAlreadyLive,
    /// The controller flag was released while no controller was live.
    ControllerAlreadyReleased,
    /// A pin was acquired while already allocated.
    PinAlreadyTaken,
    /// A pin was released while already free.
    PinAlreadyFree,
}

/// Whether acquiring `pin` from a table in this state succeeds.
pub open spec fn pin_acquire_ok(table: Seq<bool>, pin: int) -> bool {
    !table[pin]
}

/// The table after an acquire of `pin`: taken on success, unchanged on
/// failure.
pub open spec fn pin_acquire_post(table: Seq<bool>, pin: int) -> Seq<bool> {
    if !table[pin] {
        table.update(pin, true)
    } else {
        table
    }
}

/// Whether releasing `pin` into a table in this state succeeds.
pub open spec fn pin_release_ok(table: Seq<bool>, pin: int) -> bool {
    table[pin]
}

/// The table after a release of `pin`: free on success, unchanged on
/// failure.
pub open spec fn pin_release_post(table: Seq<bool>, pin: int) -> Seq<bool> {
    if table[pin] {
        table.update(pin, false)
    } else {
        table
    }
}

/// The per-pin ownership table: `true` marks a live allocation. Its view is
/// the sequence of slots, indexed by BCM pin number.
pub struct PinAllocator {
    taken: Vec<bool>,
}

impl View for PinAllocator {
    type V = Seq<bool>;

    closed spec fn view(&self) -> Seq<bool> {
        self.taken@
    }
}

impl PinAllocator {
    /// One slot per supported pin.
    pub open spec fn wf(&self) -> bool {
        self@.len() == GPIO_PIN_COUNT
    }

    /// A fresh table with every pin free.
    pub fn new() -> (r: PinAllocator)
        ensures
            r.wf(),
            forall|i: int| 0 <= i < GPIO_PIN_COUNT ==> !r@[i],
    {
        let mut taken: Vec<bool> = Vec::new();
        while taken.len() < GPIO_PIN_COUNT
            invariant
                taken@.len() <= GPIO_PIN_COUNT,
                forall|i: int| 0 <= i < taken@.len() ==> !taken@[i],
            decreases GPIO_PIN_COUNT - taken.len(),
        {
            taken.push(false);
        }
        PinAllocator { taken }
    }

    /// Atomically transition the pin free to taken; fail if already taken,
    /// leaving the table unchanged.
    pub fn acquire(&mut self, pin: usize) -> (r: Result<(), ResourceConflict>)
        requires
            old(self).wf(),
            pin <= GPIO_MAX_BCM_NUMBER,
        ensures
            final(self).wf(),
            r is Ok <==> pin_acquire_ok(old(self)@, pin as int),
            final(self)@ == pin_acquire_post(old(self)@, pin as int),
            r is Err ==> r->Err_0 == ResourceConflict::PinAlreadyTaken,
    {
        if self.taken[pin] {
            Err(ResourceConflict::PinAlreadyTaken)
        } else {
            self.taken.set(pin, true);
            Ok(())
        }
    }

    /// Atomically transition the pin taken to free; fail if already free,
    /// leaving the table unchanged — a double release signals a defect.
    pub fn release(&mut self, pin: usize) -> (r: Result<(), ResourceConflict>)
        requires
            old(self).wf(),
            pin <= GPIO_MAX_BCM_NUMBER,
        ensures
            final(self).wf(),
            r is Ok <==> pin_release_ok(old(self)@, pin as int),
            final(self)@ == pin_release_post(old(self)@, pin as int),
            r is Err ==> r->Err_0 == ResourceConflict::PinAlreadyFree,
    {
        if self.taken[pin] {
            self.taken.set(pin, false);
            Ok(())
        } else {
            Err(ResourceConflict::PinAlreadyFree)
        }
    }
}

/// Law: pin exclusivity. After a successful acquire of a pin, a second
/// acquire of the same pin without an intervening release fails.
pub proof fn lemma_pin_exclusive(table: Seq<bool>, pin: int)
    requires
        0 <= pin < table.len(),
        pin_acquire_ok(table, pin),
    ensures
        !pin_acquire_ok(pin_acquire_post(table, pin), pin),
{
}

/// Law: acquire/release round trip. Starting from a table where the pin is
/// free, acquire, release, acquire and release again all succeed, and the
/// table ends exactly as it started: released.
pub proof fn lemma_pin_round_trip(table: Seq<bool>, pin: int)
    requires
        0 <= pin < table.len(),
        pin_acquire_ok(table, pin),
    ensures
        ({
            let t1 = pin_acquire_post(table, pin);
            let t2 = pin_release_post(t1, pin);
            let t3 = pin_acquire_post(t2, pin);
            let t4 = pin_release_post(t3, pin);
            pin_release_ok(t1, pin) && pin_acquire_ok(t2, pin) && pin_release_ok(t3, pin)
                && t4 == table
        }),
{
    let t1 = pin_acquire_post(table, pin);
    let t2 = pin_release_post(t1, pin);
    let t3 = pin_acquire_post(t2, pin);
    let t4 = pin_release_post(t3, pin);
    assert(t2 =~= table);
    assert(t4 =~= table);
}

/// Whether acquiring the controller flag in this state succeeds.
pub open spec fn slot_acquire_ok(taken: bool) -> bool {
    !taken
}

/// The flag after an acquire: live on success, still live on failure.
pub open spec fn slot_acquire_post(taken: bool) -> bool {
    true
}

/// Whether releasing the controller flag in this state succeeds.
pub open spec fn slot_release_ok(taken: bool) -> bool {
    taken
}

/// The flag after a release: free on success, still free on failure.
pub open spec fn slot_release_post(taken: bool) -> bool {
    false
}

/// The flag behind the controller singleton: `true` while a controller is
/// live in the process.
pub struct ControllerSlot {
    taken: bool,
}

impl ControllerSlot {
    /// Whether a controller is live.
    pub closed spec fn is_taken(&self) -> bool {
        self.taken
    }

    /// A fresh flag with no controller live.
    pub fn new() -> (r: ControllerSlot)
        ensures
            !r.is_taken(),
    {
        ControllerSlot { taken: false }
    }

    /// Atomically claim the singleton; fail if a controller is already live.
    pub fn acquire(&mut self) -> (r: Result<(), ResourceConflict>)
        ensures
            r is Ok <==> slot_acquire_ok(old(self).is_taken()),
            final(self).is_taken() == slot_acquire_post(old(self).is_taken()),
            r is Err ==> r->Err_0 == ResourceConflict::ControllerAlreadyLive,
    {
        if self.taken {
            Err(ResourceConflict::ControllerAlreadyLive)
        } else {
            self.taken = true;
            Ok(())
        }
    }

    /// Atomically give the singleton back; fail if none is live — a double
    /// release signals a defect.
    pub fn release(&mut self) -> (r: Result<(), ResourceConflict>)
        ensures
            r is Ok <==> slot_release_ok(old(self).is_taken()),
            final(self).is_taken() == slot_release_post(old(self).is_taken()),
            r is Err ==> r->Err_0 == ResourceConflict::ControllerAlreadyReleased,
    {
        if self.taken {
            self.taken = false;
            Ok(())
        } else {
            Err(ResourceConflict::ControllerAlreadyReleased)
        }
    }
}

/// Law: the controller is a singleton. While one is live, a second
/// acquisition of the flag fails; after a release, an acquisition succeeds
/// again.
pub proof fn lemma_controller_singleton(taken: bool)
    requires
        slot_acquire_ok(taken),
    ensures
        !slot_acquire_ok(slot_acquire_post(taken)),
        slot_acquire_ok(slot_release_post(slot_acquire_post(taken))),
{
}

} // verus!
