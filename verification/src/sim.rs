//! Deterministic collaborators: a scripted register region and a table-backed
//! firmware store, for exercising the core without real hardware.

use vstd::prelude::*;

use crate::Error;
use crate::io::IoEvent;
use crate::io::RegisterIo;
use crate::regs::BOOT0_OFFSET;
use crate::regs::PTIMER_TIME_0;
use crate::regs::PTIMER_TIME_1;
use crate::request::FirmwareDevice;
use crate::request::FwFunc;

verus! {

/// Byte-wise equality of two slices.
pub fn bytes_eq(a: &[u8], b: &[u8]) -> (r: bool)
    ensures
        r == (a@ == b@),
{
    if a.len() != b.len() {
        return false;
    }
    let mut i: usize = 0;
    while i < a.len()
        invariant
            i <= a@.len(),
            a@.len() == b@.len(),
            forall|j: int| 0 <= j < i ==> a@[j] == b@[j],
        decreases a@.len() - i,
    {
        if a[i] != b[i] {
            return false;
        }
        i = i + 1;
    }
    proof {
        assert(a@ =~= b@);
    }
    true
}

/// A deterministic register region: the boot register holds a fixed value,
/// and the two counter half-registers replay a script of 64-bit counter
/// samples, consuming one sample per half-register read and staying at the
/// last sample once the script runs out (a frozen clock). Reading the halves
/// at different script positions reproduces read tearing exactly.
pub struct SimBar {
    boot0: u32,
    samples: Vec<u64>,
    pos: usize,
    reads: usize,
    writes: Vec<(usize, u32)>,
    events: Ghost<Seq<IoEvent>>,
}

impl SimBar {
    /// How many counter half-register reads have been served so far.
    pub closed spec fn spec_position(&self) -> usize {
        self.reads
    }

    pub fn new(boot0: u32, samples: Vec<u64>) -> (r: SimBar)
        ensures
            r.log() == Seq::<IoEvent>::empty(),
            r.spec_position() == 0,
    {
        SimBar { boot0, samples, pos: 0, reads: 0, writes: Vec::new(), events: Ghost(Seq::empty()) }
    }

    /// How many counter half-register reads have been served so far.
    pub fn position(&self) -> (r: usize)
        ensures
            r == self.spec_position(),
    {
        self.reads
    }

    /// The `(offset, value)` pairs written so far, oldest first.
    pub closed spec fn spec_write_log(&self) -> Seq<(usize, u32)> {
        self.writes@
    }

    /// The `(offset, value)` pairs written so far, oldest first.
    pub fn write_log(&self) -> (r: Vec<(usize, u32)>)
        ensures
            r@ == self.spec_write_log(),
    {
        let mut v: Vec<(usize, u32)> = Vec::new();
        let mut i: usize = 0;
        while i < self.writes.len()
            invariant
                i <= self.writes@.len(),
                v@ == self.writes@.take(i as int),
            decreases self.writes@.len() - i,
        {
            v.push(self.writes[i]);
            proof {
                assert(v@ =~= self.writes@.take(i + 1));
            }
            i = i + 1;
        }
        proof {
            assert(v@ =~= self.writes@);
        }
        v
    }

    fn current_sample(&self) -> u64 {
        if self.samples.len() == 0 {
            0
        } else if self.pos < self.samples.len() {
            self.samples[self.pos]
        } else {
            self.samples[self.samples.len() - 1]
        }
    }

    fn advance(&mut self)
        ensures
            final(self).events == old(self).events,
            final(self).boot0 == old(self).boot0,
            final(self).samples == old(self).samples,
    {
        if self.pos < self.samples.len() {
            self.pos = self.pos + 1;
        }
        if self.reads < usize::MAX {
            self.reads = self.reads + 1;
        }
    }
}

impl RegisterIo for SimBar {
    closed spec fn log(&self) -> Seq<IoEvent> {
        self.events@
    }

    fn read32(&mut self, offset: usize) -> (v: u32) {
        let v: u32 = if offset == PTIMER_TIME_0 {
            let s = self.current_sample();
            self.advance();
            #[verifier::truncate] (s as u32)
        } else if offset == PTIMER_TIME_1 {
            let s = self.current_sample();
            self.advance();
            #[verifier::truncate] ((s >> 32u64) as u32)
        } else if offset == BOOT0_OFFSET {
            self.boot0
        } else {
            0
        };
        proof {
            self.events@ = self.events@.push(IoEvent::Read32 { offset, value: v });
        }
        v
    }

    fn write32(&mut self, value: u32, offset: usize) {
        self.writes.push((offset, value));
        proof {
            self.events@ = self.events@.push(IoEvent::Write32 { offset, value });
        }
    }
}

/// First-match lookup in a front-to-back list of `(path, blob)` entries.
pub open spec fn spec_store_lookup(es: Seq<(Vec<u8>, Vec<u8>)>, path: Seq<u8>) -> Option<Seq<u8>>
    decreases es.len(),
{
    if es.len() == 0 {
        None
    } else if es[0].0@ == path {
        Some(es[0].1@)
    } else {
        spec_store_lookup(es.drop_first(), path)
    }
}

proof fn lemma_store_lookup_push(es: Seq<(Vec<u8>, Vec<u8>)>, e: (Vec<u8>, Vec<u8>), p: Seq<u8>)
    ensures
        spec_store_lookup(es.push(e), p) == (if spec_store_lookup(es, p) is Some {
            spec_store_lookup(es, p)
        } else if e.0@ == p {
            Some(e.1@)
        } else {
            None
        }),
    decreases es.len(),
{
    if es.len() == 0 {
        assert(es.push(e)[0] == e);
        assert(es.push(e).drop_first() =~= Seq::<(Vec<u8>, Vec<u8>)>::empty());
        assert(spec_store_lookup(es, p) is None);
        if e.0@ == p {
            assert(spec_store_lookup(es.push(e), p) == Some(e.1@));
        } else {
            assert(spec_store_lookup(es.push(e), p) == spec_store_lookup(
                es.push(e).drop_first(),
                p,
            ));
        }
    } else {
        assert(es.push(e)[0] == es[0]);
        assert(es.push(e).drop_first() =~= es.drop_first().push(e));
        lemma_store_lookup_push(es.drop_first(), e, p);
        if es[0].0@ == p {
            assert(spec_store_lookup(es, p) == Some(es[0].1@));
            assert(spec_store_lookup(es.push(e), p) == Some(es[0].1@));
        } else {
            assert(spec_store_lookup(es.push(e), p) == spec_store_lookup(
                es.drop_first().push(e),
                p,
            ));
            assert(spec_store_lookup(es, p) == spec_store_lookup(es.drop_first(), p));
        }
    }
}

/// A deterministic firmware host: a table of `(path, blob)` entries searched
/// front to back. Both request modes behave alike; the mode only selects how
/// loudly a real host would report a missing blob.
pub struct SimFirmwareDevice {
    entries: Vec<(Vec<u8>, Vec<u8>)>,
}

impl SimFirmwareDevice {
    pub fn new() -> (r: SimFirmwareDevice)
        ensures
            forall|p: Seq<u8>| r.blob(p) is None,
    {
        SimFirmwareDevice { entries: Vec::new() }
    }

    /// Add a blob under `path`; an earlier entry under the same path keeps
    /// priority.
    pub fn insert(&mut self, path: Vec<u8>, data: Vec<u8>)
        ensures
            forall|p: Seq<u8>|
                final(self).blob(p) == (if old(self).blob(p) is Some {
                    old(self).blob(p)
                } else if p == path@ {
                    Some(data@)
                } else {
                    None
                }),
    {
        let ghost es0 = self.entries@;
        let ghost e = (path, data);
        self.entries.push((path, data));
        proof {
            assert(self.entries@ =~= es0.push(e));
            assert forall|p: Seq<u8>| true implies spec_store_lookup(self.entries@, p) == (
            if spec_store_lookup(es0, p) is Some {
                spec_store_lookup(es0, p)
            } else if p == e.0@ {
                Some(e.1@)
            } else {
                None
            }) by {
                lemma_store_lookup_push(es0, e, p);
            }
        }
    }
}

impl FirmwareDevice for SimFirmwareDevice {
    closed spec fn blob(&self, path: Seq<u8>) -> Option<Seq<u8>> {
        spec_store_lookup(self.entries@, path)
    }

    #[allow(unused_variables)]
    fn request(&self, path: &[u8], func: FwFunc) -> (r: Result<Vec<u8>, Error>) {
        let mut i: usize = 0;
        proof {
            assert(self.entries@.skip(0) =~= self.entries@);
        }
        while i < self.entries.len()
            invariant
                i <= self.entries@.len(),
                spec_store_lookup(self.entries@, path@) == spec_store_lookup(
                    self.entries@.skip(i as int),
                    path@,
                ),
            decreases self.entries@.len() - i,
        {
            if bytes_eq(self.entries[i].0.as_slice(), path) {
                let d = crate::gpu::vec_from(self.entries[i].1.as_slice());
                proof {
                    assert(self.entries@.skip(i as int)[0] == self.entries@[i as int]);
                }
                return Ok(d);
            }
            proof {
                assert(self.entries@.skip(i as int)[0] == self.entries@[i as int]);
                assert(self.entries@.skip(i as int).drop_first() =~= self.entries@.skip(i + 1));
            }
            i = i + 1;
        }
        proof {
            assert(self.entries@.skip(self.entries@.len() as int)
                =~= Seq::<(Vec<u8>, Vec<u8>)>::empty());
        }
        Err(Error::FirmwareRequestFailed)
    }
}

} // verus!
