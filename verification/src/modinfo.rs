use vstd::prelude::*;

verus! {

/// The bytes of the fixed `firmware=` key used by the module-name entry.
pub open spec fn spec_firmware_key() -> Seq<u8> {
    seq![
        'f' as u8,
        'i' as u8,
        'r' as u8,
        'm' as u8,
        'w' as u8,
        'a' as u8,
        'r' as u8,
        'e' as u8,
        '=' as u8,
    ]
}

/// The optional leading entry that records the owning module's name as a
/// `key=value` pseudo-path, NUL-terminated; empty when no module name is set.
pub open spec fn spec_module_entry(module_name: Seq<u8>) -> Seq<u8> {
    if module_name.len() == 0 {
        Seq::<u8>::empty()
    } else {
        module_name + seq!['.' as u8] + spec_firmware_key() + seq![0u8]
    }
}

/// Builder for firmware module info.
///
/// A two-pass accumulator over a fixed-capacity byte buffer. With capacity 0
/// (the sizing pass) pushes only advance a running length counter and perform
/// no writes; with a non-zero capacity (the building pass) pushes also append
/// their bytes at the current write cursor, never past the capacity.
pub struct ModInfoBuilder {
    buf: Vec<u8>,
    n: usize,
    capacity: usize,
    module_name: Vec<u8>,
    pushed: Ghost<Seq<u8>>,
}

impl ModInfoBuilder {
    /// The full sequence of bytes pushed so far, whether or not they were
    /// written into the buffer.
    pub closed spec fn pushed(&self) -> Seq<u8> {
        self.pushed@
    }

    /// The declared buffer capacity; 0 selects the sizing pass.
    pub closed spec fn capacity(&self) -> usize {
        self.capacity
    }

    /// The module name this builder records in its leading entry.
    pub closed spec fn module_name(&self) -> Seq<u8> {
        self.module_name@
    }

    /// The buffer holds exactly the pushed bytes, truncated at the capacity,
    /// and the running counter counts every pushed byte.
    pub closed spec fn well_formed(&self) -> bool {
        &&& self.n == self.pushed@.len()
        &&& self.buf@ == self.pushed@.take(
            if self.pushed@.len() <= self.capacity {
                self.pushed@.len() as int
            } else {
                self.capacity as int
            },
        )
    }

    /// Create an empty builder instance.
    pub fn new(module_name: Vec<u8>, capacity: usize) -> (r: Self)
        ensures
            r.well_formed(),
            r.pushed() == Seq::<u8>::empty(),
            r.capacity() == capacity,
            r.module_name() == module_name@,
    {
        let r = ModInfoBuilder {
            buf: Vec::new(),
            n: 0,
            capacity,
            module_name,
            pushed: Ghost(Seq::empty()),
        };
        proof {
            assert(r.buf@ =~= r.pushed@.take(0));
        }
        r
    }

    fn push_internal(self, bytes: &[u8]) -> (r: Self)
        requires
            self.well_formed(),
            self.pushed().len() + bytes@.len() <= usize::MAX,
        ensures
            r.well_formed(),
            r.pushed() == self.pushed() + bytes@,
            r.capacity() == self.capacity(),
            r.module_name() == self.module_name(),
    {
        let mut this = self;
        let ghost orig = this.pushed@;
        if this.capacity == 0 {
            this.n = this.n + bytes.len();
            proof {
                this.pushed@ = orig + bytes@;
                assert(this.buf@ =~= this.pushed@.take(0));
            }
            return this;
        }
        let mut j: usize = 0;
        while j < bytes.len()
            invariant
                j <= bytes@.len(),
                orig.len() + bytes@.len() <= usize::MAX,
                this.capacity == self.capacity(),
                this.capacity > 0,
                this.module_name@ == self.module_name(),
                this.pushed@ == orig + bytes@.take(j as int),
                this.well_formed(),
            decreases bytes@.len() - j,
        {
            if this.n < this.capacity {
                this.buf.push(bytes[j]);
            }
            this.n = this.n + 1;
            proof {
                let prev = this.pushed@;
                this.pushed@ = this.pushed@.push(bytes@[j as int]);
                assert(this.pushed@ =~= orig + bytes@.take(j + 1));
                if prev.len() < this.capacity {
                    assert(this.buf@ =~= this.pushed@.take(
                        if this.pushed@.len() <= this.capacity {
                            this.pushed@.len() as int
                        } else {
                            this.capacity as int
                        },
                    ));
                } else {
                    assert(this.buf@ =~= this.pushed@.take(this.capacity as int));
                }
            }
            j = j + 1;
        }
        proof {
            assert(this.pushed@ =~= orig + bytes@);
        }
        this
    }

    /// Push an additional path component.
    ///
    /// [`ModInfoBuilder::prepare`] must be called between entries, so that the
    /// previous entry is terminated before the next one starts.
    pub fn push(self, bytes: &[u8]) -> (r: Self)
        requires
            self.well_formed(),
            self.pushed().len() + bytes@.len() <= usize::MAX,
        ensures
            r.well_formed(),
            r.pushed() == self.pushed() + bytes@,
            r.capacity() == self.capacity(),
            r.module_name() == self.module_name(),
    {
        self.push_internal(bytes)
    }

    fn prepare_module_name(self) -> (r: Self)
        requires
            self.well_formed(),
            self.pushed().len() + self.module_name().len() + 11 <= usize::MAX,
        ensures
            r.well_formed(),
            r.pushed() == self.pushed() + spec_module_entry(self.module_name()),
            r.capacity() == self.capacity(),
            r.module_name() == self.module_name(),
    {
        if self.module_name.len() == 0 {
            proof {
                assert(self.pushed() + spec_module_entry(self.module_name()) =~= self.pushed());
            }
            return self;
        }
        let name = crate::gpu::vec_from(self.module_name.as_slice());
        let ghost m = self.module_name();
        let ghost p0 = self.pushed();
        let mut this = self.push_internal(name.as_slice());
        let dot: [u8; 1] = ['.' as u8];
        this = this.push_internal(dot.as_slice());
        let key: [u8; 9] = [
            'f' as u8,
            'i' as u8,
            'r' as u8,
            'm' as u8,
            'w' as u8,
            'a' as u8,
            'r' as u8,
            'e' as u8,
            '=' as u8,
        ];
        this = this.push_internal(key.as_slice());
        let nul: [u8; 1] = [0u8];
        this = this.push_internal(nul.as_slice());
        proof {
            assert(key@ =~= spec_firmware_key());
            assert(this.pushed() =~= p0 + spec_module_entry(m));
        }
        this
    }

    /// Prepare for the next module info entry: the very first call records the
    /// module-name pseudo-entry, every later call terminates the previous
    /// entry.
    pub fn prepare(self) -> (r: Self)
        requires
            self.well_formed(),
            self.pushed().len() + (if self.pushed().len() == 0 {
                self.module_name().len() + 11
            } else {
                1
            }) <= usize::MAX,
        ensures
            r.well_formed(),
            r.pushed() == self.pushed() + (if self.pushed().len() == 0 {
                spec_module_entry(self.module_name())
            } else {
                seq![0u8]
            }),
            r.capacity() == self.capacity(),
            r.module_name() == self.module_name(),
    {
        if self.n == 0 {
            self.prepare_module_name()
        } else {
            let nul: [u8; 1] = [0u8];
            let r = self.push_internal(nul.as_slice());
            proof {
                assert(nul@ =~= seq![0u8]);
            }
            r
        }
    }

    /// Build the byte array: append the final NUL terminator and hand the
    /// buffer out, but only if its occupied length exactly matches the
    /// declared capacity; any mismatch is a hard failure.
    pub fn build(self) -> (r: Option<Vec<u8>>)
        requires
            self.well_formed(),
            self.pushed().len() + 1 <= usize::MAX,
        ensures
            r matches Some(v) ==> v@ == self.pushed() + seq![0u8] && v@.len() == self.capacity(),
            r is Some <==> self.pushed().len() + 1 == self.capacity(),
    {
        let nul: [u8; 1] = [0u8];
        let this = self.push_internal(nul.as_slice());
        proof {
            assert(nul@ =~= seq![0u8]);
        }
        if this.n == this.capacity {
            proof {
                assert(this.buf@ =~= this.pushed@);
            }
            Some(this.buf)
        } else {
            None
        }
    }

    /// Return the length of the byte array to build: the sizing pass's final
    /// counter, plus one for the terminator that `build` appends.
    pub fn build_length(self) -> (r: usize)
        requires
            self.well_formed(),
            self.capacity() == 0,
            self.pushed().len() < usize::MAX,
        ensures
            r == self.pushed().len() + 1,
    {
        self.n + 1
    }
}

} // verus!
