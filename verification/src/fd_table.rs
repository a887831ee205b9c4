//! A model of one process's file-descriptor table.
//!
//! The table maps small non-negative integers ("descriptor numbers") to open
//! streams. Its one load-bearing invariant comes from the kernel: *a newly
//! opened descriptor always receives the lowest currently-unused number*.
//! Everything the stream-neutralization strategies promise rests on that
//! policy, so it is stated here once, as the contract of
//! [`FdTable::open_descriptor`], rather than assumed wherever files are
//! opened.
//!
//! The view of a table is the partial map from descriptor numbers to what
//! they are bound to; numbers outside the map are free.

use vstd::prelude::*;

use crate::SysError;

verus! {

/// What an open descriptor is bound to.
#[derive(Debug, Clone, Copy, PartialEq, Eq, Structural)]
pub enum FdBinding {
    /// A stream inherited from the launching environment, conventionally the
    /// controlling terminal.
    Terminal,
    /// The null device: reads see end-of-file, writes are discarded.
    NullDevice,
    /// An ordinary file, identified by an abstract number the opener picks.
    File(u64),
}

/// Holds exactly when `n` is the lowest free descriptor number of `m`: `n`
/// itself is unbound and every lower number is bound. This is the kernel's
/// allocation policy, stated as a predicate.
pub open spec fn is_lowest_free(m: Map<nat, FdBinding>, n: nat) -> bool {
    &&& !m.dom().contains(n)
    &&& forall|j: nat| j < n ==> m.dom().contains(j)
}

/// The descriptor table the launching environment hands a foreground process:
/// slots 0, 1 and 2 bound to the terminal, nothing else open.
pub open spec fn standard_streams() -> Map<nat, FdBinding> {
    map![0nat => FdBinding::Terminal, 1nat => FdBinding::Terminal, 2nat => FdBinding::Terminal]
}

/// Law: the lowest free descriptor number is unique.
pub proof fn lemma_lowest_free_unique(m: Map<nat, FdBinding>, a: nat, b: nat)
    requires
        is_lowest_free(m, a),
        is_lowest_free(m, b),
    ensures
        a == b,
{
    if a < b {
        assert(m.dom().contains(a));
    }
    if b < a {
        assert(m.dom().contains(b));
    }
}

/// One process's descriptor table. The slot at index `i` of the vector
/// describes descriptor `i`; `None` marks a free slot, and every index past
/// the end of the vector is free as well.
pub struct FdTable {
    slots: Vec<Option<FdBinding>>,
}

impl View for FdTable {
    type V = Map<nat, FdBinding>;

    closed spec fn view(&self) -> Map<nat, FdBinding> {
        Map::new(
            |i: nat| i < self.slots@.len() && self.slots@[i as int] is Some,
            |i: nat| self.slots@[i as int]->0,
        )
    }
}

impl FdTable {
    /// A table with no open descriptors.
    pub fn empty() -> (t: FdTable)
        ensures
            t@ == Map::<nat, FdBinding>::empty(),
    {
        let t = FdTable { slots: Vec::new() };
        proof {
            assert(t@ =~= Map::<nat, FdBinding>::empty());
        }
        t
    }

    /// The table of a freshly launched foreground process: descriptors 0, 1
    /// and 2 bound to the terminal.
    pub fn standard() -> (t: FdTable)
        ensures
            t@ == standard_streams(),
    {
        let mut slots: Vec<Option<FdBinding>> = Vec::new();
        slots.push(Some(FdBinding::Terminal));
        slots.push(Some(FdBinding::Terminal));
        slots.push(Some(FdBinding::Terminal));
        let t = FdTable { slots };
        proof {
            assert(t@ =~= standard_streams());
        }
        t
    }

    /// An identical copy of the table, as each side of a process split keeps.
    pub fn duplicate(&self) -> (t: FdTable)
        ensures
            t@ == self@,
    {
        let mut slots: Vec<Option<FdBinding>> = Vec::new();
        let mut i: usize = 0;
        while i < self.slots.len()
            invariant
                i <= self.slots@.len(),
                slots@ =~= self.slots@.subrange(0, i as int),
            decreases self.slots@.len() - i,
        {
            slots.push(self.slots[i]);
            i = i + 1;
        }
        let t = FdTable { slots };
        proof {
            assert(t.slots@ =~= self.slots@);
            assert(t@ =~= self@);
        }
        t
    }

    /// What descriptor `fd` is bound to, or `None` if it is free. A write
    /// through `fd` reaches exactly this stream, which is why a daemon must
    /// never leave slots 0..2 free: diagnostic output writes there blindly.
    pub fn binding_at(&self, fd: usize) -> (r: Option<FdBinding>)
        ensures
            r == (if self@.dom().contains(fd as nat) {
                Some(self@[fd as nat])
            } else {
                None::<FdBinding>
            }),
    {
        if fd < self.slots.len() {
            self.slots[fd]
        } else {
            None
        }
    }

    /// Whether descriptor `fd` is open.
    pub fn is_open(&self, fd: usize) -> (r: bool)
        ensures
            r == self@.dom().contains(fd as nat),
    {
        fd < self.slots.len() && self.slots[fd].is_some()
    }

    /// Opens a new stream. The kernel assigns the lowest currently-unused
    /// descriptor number — the policy every safety argument in this crate
    /// leans on — and binds it to `binding`.
    pub fn open_descriptor(&mut self, binding: FdBinding) -> (fd: usize)
        ensures
            is_lowest_free(old(self)@, fd as nat),
            final(self)@ == old(self)@.insert(fd as nat, binding),
    {
        let mut i: usize = 0;
        while i < self.slots.len()
            invariant
                self.slots@ == old(self).slots@,
                i <= self.slots@.len(),
                forall|j: int| 0 <= j < i ==> self.slots@[j] is Some,
            decreases self.slots@.len() - i,
        {
            if self.slots[i].is_none() {
                proof {
                    assert forall|j: nat| j < i as nat implies old(
                        self,
                    )@.dom().contains(j) by {
                        assert(old(self).slots@[j as int] is Some);
                    }
                }
                self.slots.set(i, Some(binding));
                proof {
                    assert(self@ =~= old(self)@.insert(i as nat, binding));
                }
                return i;
            }
            i = i + 1;
        }
        let fd = self.slots.len();
        proof {
            assert forall|j: nat| j < fd as nat implies old(self)@.dom().contains(j) by {
                assert(old(self).slots@[j as int] is Some);
            }
        }
        self.slots.push(Some(binding));
        proof {
            assert(self@ =~= old(self)@.insert(fd as nat, binding));
        }
        fd
    }

    /// Closes descriptor `fd`, freeing its number for reuse by the next open.
    /// Fails with `BadDescriptor` when `fd` is not open, leaving the table
    /// unchanged.
    pub fn close_descriptor(&mut self, fd: usize) -> (r: Result<(), SysError>)
        ensures
            r is Ok <==> old(self)@.dom().contains(fd as nat),
            r is Ok ==> final(self)@ == old(self)@.remove(fd as nat),
            r is Err ==> r == Result::<(), SysError>::Err(SysError::BadDescriptor)
                && final(self)@ == old(self)@,
    {
        if fd < self.slots.len() && self.slots[fd].is_some() {
            self.slots.set(fd, None);
            proof {
                assert(self@ =~= old(self)@.remove(fd as nat));
            }
            Ok(())
        } else {
            Err(SysError::BadDescriptor)
        }
    }

    /// Atomically rebinds descriptor `dst` to whatever `src` is bound to,
    /// closing what `dst` held before, and reports `dst` back. Fails with
    /// `BadDescriptor` when `src` is not open, leaving the table unchanged.
    /// Unlike an open, this places the binding at exactly `dst`.
    pub fn dup2(&mut self, src: usize, dst: usize) -> (r: Result<usize, SysError>)
        ensures
            r is Ok <==> old(self)@.dom().contains(src as nat),
            r is Ok ==> r == Result::<usize, SysError>::Ok(dst)
                && final(self)@ == old(self)@.insert(dst as nat, old(self)@[src as nat]),
            r is Err ==> r == Result::<usize, SysError>::Err(SysError::BadDescriptor)
                && final(self)@ == old(self)@,
    {
        if src < self.slots.len() && self.slots[src].is_some() {
            let binding = self.slots[src].unwrap();
            while self.slots.len() <= dst
                invariant
                    self@ =~= old(self)@,
                    src < self.slots@.len(),
                    self.slots@[src as int] == Some(binding),
                decreases dst + 1 - self.slots@.len(),
            {
                self.slots.push(None);
                proof {
                    assert(self@ =~= old(self)@);
                }
            }
            self.slots.set(dst, Some(binding));
            proof {
                assert(self@ =~= old(self)@.insert(dst as nat, old(self)@[src as nat]));
            }
            Ok(dst)
        } else {
            Err(SysError::BadDescriptor)
        }
    }
}

} // verus!
