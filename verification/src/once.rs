//! A write-once slot: the service's settings and probe results are decided
//! once and then read back unchanged for the life of the process.
use vstd::prelude::*;

verus! {

/// A slot that can be written once. The first value written stays; later
/// writes are refused and hand their value back.
pub struct OnceSlot<T> {
    value: Option<T>,
}

/// What a slot holds after a write of `v` to a slot that held `s`.
pub open spec fn after_set<T>(s: Option<T>, v: T) -> Option<T> {
    match s {
        Some(old) => Some(old),
        None => Some(v),
    }
}

impl<T> View for OnceSlot<T> {
    type V = Option<T>;

    closed spec fn view(&self) -> Option<T> {
        self.value
    }
}

impl<T> OnceSlot<T> {
    /// An empty slot.
    pub fn new() -> (r: Self)
        ensures
            r@ is None,
    {
        OnceSlot { value: None }
    }

    /// Writes `v` if the slot is empty; otherwise leaves the slot as it was
    /// and returns `v` as the error.
    pub fn set(&mut self, v: T) -> (r: Result<(), T>)
        ensures
            final(self)@ == after_set(old(self)@, v),
            old(self)@ is None ==> r is Ok,
            old(self)@ is Some ==> r == Err::<(), T>(v),
    {
        if self.value.is_some() {
            Err(v)
        } else {
            self.value = Some(v);
            Ok(())
        }
    }

    /// The value written, if any.
    pub fn get(&self) -> (r: Option<&T>)
        ensures
            match r {
                Some(x) => self@ == Some(*x),
                None => self@ is None,
            },
    {
        match &self.value {
            Some(x) => Some(x),
            None => None,
        }
    }

    pub fn is_set(&self) -> (r: bool)
        ensures
            r == self@ is Some,
    {
        self.value.is_some()
    }
}

impl<T: Copy> OnceSlot<T> {
    /// The value written, writing the result of `init` first if the slot is
    /// empty. `init` runs only when the slot is empty.
    pub fn get_or_init<F: FnOnce() -> T>(&mut self, init: F) -> (r: T)
        requires
            init.requires(()),
        ensures
            match old(self)@ {
                Some(v) => r == v && final(self)@ == old(self)@,
                None => init.ensures((), r) && final(self)@ == Some(r),
            },
    {
        match self.value {
            Some(v) => v,
            None => {
                let v = init();
                self.value = Some(v);
                v
            },
        }
    }
}

/// Law: once a slot has been written, no later write changes it.
pub proof fn law_first_write_wins<T>(s: Option<T>, a: T, b: T)
    ensures
        after_set(after_set(s, a), b) == after_set(s, a),
        after_set(after_set(None::<T>, a), b) == Some(a),
{
}

} // verus!
