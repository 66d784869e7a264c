use vstd::prelude::*;

use crate::memory::{ImageView, MemoryImage};

verus! {

/// Why a patch could not be built.
#[derive(Debug, Clone, Copy, PartialEq, Eq, Structural)]
pub enum ConstructionError {
    /// The bytes expected before and the bytes written after differ in length.
    LengthMismatch,
    /// A call displacement does not fit in a signed 32-bit field.
    DisplacementOutOfRange,
}

/// Why applying or reverting a patch did nothing.
#[derive(Debug, PartialEq, Eq)]
pub enum PatchError {
    /// The bytes resident at the patch address are not the ones the operation starts from.
    UnexpectedBytes { expected: Vec<u8>, found: Vec<u8> },
    /// The patched range does not lie inside the memory window.
    OutOfRange,
}

/// A same-length byte substitution at a fixed address, which can be applied and reverted.
pub struct Patch {
    addr: usize,
    old: Vec<u8>,
    new: Vec<u8>,
}

/// What a patch stands for: where it writes, what it expects there, what it writes.
pub ghost struct PatchView {
    pub addr: int,
    pub old: Seq<u8>,
    pub new: Seq<u8>,
}

impl PatchView {
    /// Every patch rewrites exactly as many bytes as it expects.
    pub open spec fn wf(self) -> bool {
        self.old.len() == self.new.len()
    }

    /// The number of bytes the patch covers.
    pub open spec fn len(self) -> int {
        self.old.len() as int
    }

    /// `m` holds the patch's expected bytes at its address, so it can be applied.
    pub open spec fn can_apply(self, m: ImageView) -> bool {
        m.covers(self.addr, self.len()) && m.read(self.addr, self.len()) == self.old
    }

    /// `m` holds the patch's replacement bytes at its address, so it can be reverted.
    pub open spec fn can_unapply(self, m: ImageView) -> bool {
        m.covers(self.addr, self.len()) && m.read(self.addr, self.len()) == self.new
    }

    /// `m` with the patch's replacement bytes written.
    pub open spec fn applied(self, m: ImageView) -> ImageView {
        m.write(self.addr, self.new)
    }

    /// `m` with the patch's expected bytes written back.
    pub open spec fn unapplied(self, m: ImageView) -> ImageView {
        m.write(self.addr, self.old)
    }

    /// The error an operation reports when `m` does not hold `expected` at the patch address.
    pub open spec fn refusal(self, m: ImageView, expected: Seq<u8>, e: PatchError) -> bool {
        if !m.covers(self.addr, self.len()) {
            e is OutOfRange
        } else {
            match e {
                PatchError::UnexpectedBytes { expected: x, found: f } => x@ == expected && f@
                    == m.read(self.addr, self.len()),
                PatchError::OutOfRange => false,
            }
        }
    }
}

impl View for Patch {
    type V = PatchView;

    closed spec fn view(&self) -> PatchView {
        PatchView { addr: self.addr as int, old: self.old@, new: self.new@ }
    }
}

/// Whether two byte sequences are equal.
fn bytes_equal(a: &[u8], b: &[u8]) -> (r: bool)
    ensures
        r == (a@ == b@),
{
    if a.len() != b.len() {
        return false;
    }
    let mut i: usize = 0;
    while i < a.len()
        invariant
            a@.len() == b@.len(),
            i <= a@.len(),
            forall|k: int| 0 <= k < i ==> a@[k] == b@[k],
        decreases a@.len() - i,
    {
        if a[i] != b[i] {
            return false;
        }
        i = i + 1;
    }
    assert(a@ =~= b@);
    true
}

/// Checks that `current` equals `expected`, reporting both where it does not.
fn expect_bytes(expected: &[u8], current: &[u8]) -> (r: Result<(), PatchError>)
    ensures
        r is Ok <==> current@ == expected@,
        r matches Err(e) ==> (e matches PatchError::UnexpectedBytes { expected: x, found: f } && x@
            == expected@ && f@ == current@),
{
    if bytes_equal(expected, current) {
        Ok(())
    } else {
        Err(
            PatchError::UnexpectedBytes {
                expected: vstd::slice::slice_to_vec(expected),
                found: vstd::slice::slice_to_vec(current),
            },
        )
    }
}

impl Patch {
    #[verifier::type_invariant]
    closed spec fn inv(self) -> bool {
        self.old.len() == self.new.len()
    }

    /// A patch that turns `old` at `addr` into `new`; the two must have the same length.
    pub fn new(addr: usize, old: Vec<u8>, new: Vec<u8>) -> (r: Result<Patch, ConstructionError>)
        ensures
            r is Ok <==> old@.len() == new@.len(),
            r matches Ok(p) ==> p@ == (PatchView { addr: addr as int, old: old@, new: new@ }),
            r matches Err(e) ==> e == ConstructionError::LengthMismatch,
    {
        if old.len() == new.len() {
            Ok(Patch { addr, old, new })
        } else {
            Err(ConstructionError::LengthMismatch)
        }
    }

    /// The address the patch writes at.
    pub fn addr(&self) -> (r: usize)
        ensures
            r as int == self@.addr,
    {
        self.addr
    }

    /// The bytes expected at the address before the patch is applied.
    pub fn old_bytes(&self) -> (r: &[u8])
        ensures
            r@ == self@.old,
    {
        self.old.as_slice()
    }

    /// The bytes the patch writes.
    pub fn new_bytes(&self) -> (r: &[u8])
        ensures
            r@ == self@.new,
    {
        self.new.as_slice()
    }

    /// The number of bytes the patch covers, the same before and after.
    pub fn len(&self) -> (r: usize)
        ensures
            r as int == self@.old.len(),
            r as int == self@.new.len(),
            self@.wf(),
    {
        proof {
            use_type_invariant(self);
        }
        self.old.len()
    }

    /// Decides whether the patch may be applied over the bytes `current` now resident
    /// at its address.
    pub fn check_apply(&self, current: &[u8]) -> (r: Result<(), PatchError>)
        ensures
            r is Ok <==> current@ == self@.old,
            r matches Err(e) ==> (e matches PatchError::UnexpectedBytes { expected: x, found: f }
                && x@ == self@.old && f@ == current@),
    {
        expect_bytes(self.old.as_slice(), current)
    }

    /// Decides whether the patch may be reverted over the bytes `current` now resident
    /// at its address.
    pub fn check_unapply(&self, current: &[u8]) -> (r: Result<(), PatchError>)
        ensures
            r is Ok <==> current@ == self@.new,
            r matches Err(e) ==> (e matches PatchError::UnexpectedBytes { expected: x, found: f }
                && x@ == self@.new && f@ == current@),
    {
        expect_bytes(self.new.as_slice(), current)
    }

    /// Writes the replacement bytes, after checking that the expected ones are resident.
    /// Memory is untouched on error.
    pub fn apply(&self, mem: &mut MemoryImage) -> (r: Result<(), PatchError>)
        ensures
            self@.wf(),
            r is Ok <==> self@.can_apply(old(mem)@),
            r is Ok ==> final(mem)@ == self@.applied(old(mem)@),
            r matches Err(e) ==> final(mem)@ == old(mem)@ && self@.refusal(old(mem)@, self@.old, e),
    {
        let n = self.len();
        match mem.read(self.addr, n) {
            None => Err(PatchError::OutOfRange),
            Some(current) => {
                match self.check_apply(current.as_slice()) {
                    Ok(()) => {
                        mem.write(self.addr, self.new.as_slice());
                        Ok(())
                    },
                    Err(e) => Err(e),
                }
            },
        }
    }

    /// Writes the expected bytes back, after checking that the replacement is resident.
    /// Memory is untouched on error.
    pub fn unapply(&self, mem: &mut MemoryImage) -> (r: Result<(), PatchError>)
        ensures
            self@.wf(),
            r is Ok <==> self@.can_unapply(old(mem)@),
            r is Ok ==> final(mem)@ == self@.unapplied(old(mem)@),
            r matches Err(e) ==> final(mem)@ == old(mem)@ && self@.refusal(old(mem)@, self@.new, e),
    {
        let n = self.len();
        match mem.read(self.addr, n) {
            None => Err(PatchError::OutOfRange),
            Some(current) => {
                match self.check_unapply(current.as_slice()) {
                    Ok(()) => {
                        mem.write(self.addr, self.old.as_slice());
                        Ok(())
                    },
                    Err(e) => Err(e),
                }
            },
        }
    }
}

/// Applying a patch and then reverting it gives back exactly the memory it started from:
/// once applied the replacement bytes are resident, so the revert is accepted, and it
/// restores every byte.
pub proof fn lemma_round_trip(p: PatchView, m: ImageView)
    requires
        p.wf(),
        p.can_apply(m),
    ensures
        p.can_unapply(p.applied(m)),
        p.unapplied(p.applied(m)) == m,
{
    let m1 = p.applied(m);
    assert(m1.read(p.addr, p.len()) =~= p.new);
    assert(p.unapplied(m1).bytes =~= m.bytes);
}

/// A patch that changes something cannot be applied twice: after the first application
/// the resident bytes are the replacement, which is not what it expects.
pub proof fn lemma_double_apply_rejected(p: PatchView, m: ImageView)
    requires
        p.wf(),
        p.can_apply(m),
        p.old != p.new,
    ensures
        !p.can_apply(p.applied(m)),
        p.applied(m).covers(p.addr, p.len()),
        p.applied(m).read(p.addr, p.len()) == p.new,
{
    assert(p.applied(m).read(p.addr, p.len()) =~= p.new);
}

} // verus!
