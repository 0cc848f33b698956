use vstd::prelude::*;

verus! {

/// A component that serves part of the address space of the memory bus.
pub trait MmuObject {
    /// The addresses this component serves.
    spec fn serves(&self, addr: u16) -> bool;

    /// The byte a read of `addr` gives.
    spec fn value_at(&self, addr: u16) -> u8;

    /// Whether `self` is what a write of `data` to `addr` makes of `before`.
    spec fn written_from(&self, before: &Self, addr: u16, data: u8) -> bool;

    fn read8(&self, addr: u16) -> (r: u8)
        requires
            self.serves(addr),
        ensures
            r == self.value_at(addr),
    ;

    fn write8(&mut self, addr: u16, data: u8)
        requires
            old(self).serves(addr),
        ensures
            final(self).written_from(&*old(self), addr, data),
    ;
}

} // verus!
