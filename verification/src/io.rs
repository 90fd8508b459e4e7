use vstd::prelude::*;

verus! {

/// One access to the mapped register region, as recorded in the ghost history
/// of a [`RegisterIo`] implementation.
#[derive(Clone, Copy, PartialEq, Eq, Structural)]
pub enum IoEvent {
    Read32 { offset: usize, value: u32 },
    Write32 { offset: usize, value: u32 },
}

/// Register access over a mapped I/O region, supplied by the host environment.
///
/// The device updates registers asynchronously, so nothing is promised about
/// the value a read returns; each access is only recorded in a ghost history,
/// over which callers state what they observed.
pub trait RegisterIo: Sized {
    /// The history of accesses made through this handle, oldest first.
    spec fn log(&self) -> Seq<IoEvent>;

    /// Read the 32-bit register at `offset`.
    fn read32(&mut self, offset: usize) -> (v: u32)
        ensures
            final(self).log() == old(self).log().push(IoEvent::Read32 { offset, value: v }),
    ;

    /// Write `value` to the 32-bit register at `offset`.
    fn write32(&mut self, value: u32, offset: usize)
        ensures
            final(self).log() == old(self).log().push(IoEvent::Write32 { offset, value }),
    ;
}

} // verus!
