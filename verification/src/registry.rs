use vstd::prelude::*;

verus! {

/// A single-occupancy store for the host's objective callable. Each thread
/// of control owns one slot (the embedding keeps it in thread-local
/// storage), so distinct threads never observe each other's occupant. The
/// slot is generic in the callable's type: the verified logic never looks
/// inside the callable, it only tracks occupancy.
pub struct CallbackSlot<T> {
    occupant: Option<T>,
}

impl<T> View for CallbackSlot<T> {
    type V = Option<T>;

    closed spec fn view(&self) -> Option<T> {
        self.occupant
    }
}

/// What the slot holds after `register`: the new callable, whatever was
/// there before (registration overwrites any prior occupant).
pub open spec fn slot_after_register<T>(prior: Option<T>, callable: T) -> Option<T> {
    Some(callable)
}

/// What the slot holds after `clear`: nothing, whatever was there before.
pub open spec fn slot_after_clear<T>(prior: Option<T>) -> Option<T> {
    None
}

impl<T> CallbackSlot<T> {
    /// A fresh, empty slot.
    pub fn empty() -> (s: Self)
        ensures
            s@ is None,
    {
        CallbackSlot { occupant: None }
    }

    /// Store `callable`, keeping it alive until `clear`. Overwrites (and
    /// thereby releases) any prior occupant; under correct call discipline
    /// there never is one.
    pub fn register(&mut self, callable: T)
        ensures
            final(self)@ == slot_after_register(old(self)@, callable),
    {
        self.occupant = Some(callable);
    }

    /// Empty the slot unconditionally, releasing ownership of whatever it
    /// held.
    pub fn clear(&mut self)
        ensures
            final(self)@ == slot_after_clear(old(self)@),
    {
        self.occupant = None;
    }

    /// The current occupant, if any, without removing it. This is what the
    /// trampoline uses to reach the registered callable.
    pub fn peek(&self) -> (r: Option<&T>)
        ensures
            r is Some <==> self@ is Some,
            r matches Some(f) ==> self@ == Some(*f),
    {
        self.occupant.as_ref()
    }

    /// Whether the slot currently holds a callable.
    pub fn is_occupied(&self) -> (r: bool)
        ensures
            r == (self@ is Some),
    {
        self.occupant.is_some()
    }
}

/// Law: one call's registry discipline leaves no trace. Whatever occupied
/// the slot before the call, and whichever callable the call registers,
/// the unconditional clear at the end leaves the slot empty, so no
/// callable reference outlives its registering call.
pub proof fn lemma_call_leaves_slot_empty<T>(prior: Option<T>, callable: T)
    ensures
        slot_after_clear(slot_after_register(prior, callable)) is None,
{
}

} // verus!
