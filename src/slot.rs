use vstd::prelude::*;

verus! {

/// Why a factory could not be installed in, or taken from, its slot.
#[derive(Clone, Copy, Debug, PartialEq, Eq, Structural)]
pub enum SlotError {
    /// A factory was installed before: the run entry ran twice.
    AlreadyInstalled,
    /// Nothing was ever installed.
    NotInstalled,
    /// The factory was taken before: a second consumption.
    AlreadyConsumed,
}

/// A one-shot factory: empty until installed, pending until taken, then
/// consumed forever.
pub enum FactorySlot<F> {
    Empty,
    Pending(F),
    Consumed,
}

impl<F> FactorySlot<F> {
    pub fn new() -> (s: FactorySlot<F>)
        ensures
            s is Empty,
    {
        FactorySlot::Empty
    }

    /// Stores `f`; only an empty slot accepts one, anything else is left as
    /// it was.
    pub fn install(&mut self, f: F) -> (r: Result<(), SlotError>)
        ensures
            *old(self) is Empty ==> r is Ok && *final(self) == FactorySlot::Pending(f),
            *old(self) is Pending ==> r == Err::<(), SlotError>(SlotError::AlreadyInstalled)
                && *final(self) == *old(self),
            *old(self) is Consumed ==> r == Err::<(), SlotError>(SlotError::AlreadyInstalled)
                && *final(self) == *old(self),
    {
        match self {
            FactorySlot::Empty => {
                *self = FactorySlot::Pending(f);
                Ok(())
            },
            _ => Err(SlotError::AlreadyInstalled),
        }
    }

    /// Moves the pending factory out, leaving the slot consumed; fails,
    /// leaving the slot as it was, where there is none.
    pub fn take(&mut self) -> (r: Result<F, SlotError>)
        ensures
            match *old(self) {
                FactorySlot::Pending(f) => r == Ok::<F, SlotError>(f) && *final(self)
                    is Consumed,
                FactorySlot::Empty => r == Err::<F, SlotError>(SlotError::NotInstalled)
                    && *final(self) == *old(self),
                FactorySlot::Consumed => r == Err::<F, SlotError>(SlotError::AlreadyConsumed)
                    && *final(self) == *old(self),
            },
    {
        let mut taken = FactorySlot::Consumed;
        std::mem::swap(self, &mut taken);
        match taken {
            FactorySlot::Pending(f) => Ok(f),
            FactorySlot::Empty => {
                *self = FactorySlot::Empty;
                Err(SlotError::NotInstalled)
            },
            FactorySlot::Consumed => Err(SlotError::AlreadyConsumed),
        }
    }

    pub fn is_pending(&self) -> (r: bool)
        ensures
            r == self is Pending,
    {
        match self {
            FactorySlot::Pending(_) => true,
            _ => false,
        }
    }

    pub fn is_consumed(&self) -> (r: bool)
        ensures
            r == self is Consumed,
    {
        match self {
            FactorySlot::Consumed => true,
            _ => false,
        }
    }
}

} // verus!
