use vstd::prelude::*;

verus! {

/// A window onto the target's address space: the bytes that lie from `base` on.
///
/// Patches are verified against this model. A copy of a range of the live process's
/// memory is one instance of it, and a buffer in a test is another.
pub struct MemoryImage {
    base: usize,
    bytes: Vec<u8>,
}

/// What a memory window holds: its first address and its contents.
pub ghost struct ImageView {
    pub base: int,
    pub bytes: Seq<u8>,
}

impl ImageView {
    /// The range `[addr, addr + len)` lies inside the window.
    pub open spec fn covers(self, addr: int, len: int) -> bool {
        &&& 0 <= len
        &&& self.base <= addr
        &&& addr + len <= self.base + self.bytes.len()
    }

    /// The `len` bytes resident at `addr`.
    pub open spec fn read(self, addr: int, len: int) -> Seq<u8> {
        self.bytes.subrange(addr - self.base, addr - self.base + len)
    }

    /// The window after `data` has been written at `addr`, every other byte kept.
    pub open spec fn write(self, addr: int, data: Seq<u8>) -> ImageView {
        let o = addr - self.base;
        ImageView {
            base: self.base,
            bytes: self.bytes.subrange(0, o) + data + self.bytes.subrange(o + data.len(), self.bytes.len() as int),
        }
    }
}

impl View for MemoryImage {
    type V = ImageView;

    closed spec fn view(&self) -> ImageView {
        ImageView { base: self.base as int, bytes: self.bytes@ }
    }
}

impl MemoryImage {
    #[verifier::type_invariant]
    closed spec fn inv(self) -> bool {
        self.base as int + self.bytes.len() <= usize::MAX as int + 1
    }

    /// A window of `bytes` starting at `base`, or `None` where it would run past
    /// the end of the address space.
    pub fn new(base: usize, bytes: Vec<u8>) -> (r: Option<MemoryImage>)
        ensures
            base as int + bytes@.len() <= usize::MAX as int + 1 <==> r is Some,
            r matches Some(m) ==> m@ == (ImageView { base: base as int, bytes: bytes@ }),
    {
        if bytes.len() == 0 || bytes.len() - 1 <= usize::MAX - base {
            Some(MemoryImage { base, bytes })
        } else {
            None
        }
    }

    /// The first address of the window.
    pub fn base(&self) -> (r: usize)
        ensures
            r as int == self@.base,
            self@.base + self@.bytes.len() <= usize::MAX as int + 1,
    {
        proof {
            use_type_invariant(self);
        }
        self.base
    }

    /// All bytes of the window, in address order.
    pub fn bytes(&self) -> (r: &[u8])
        ensures
            r@ == self@.bytes,
    {
        self.bytes.as_slice()
    }

    /// Whether `[addr, addr + len)` lies inside the window.
    pub fn covers(&self, addr: usize, len: usize) -> (r: bool)
        ensures
            r == self@.covers(addr as int, len as int),
    {
        proof {
            use_type_invariant(self);
        }
        addr >= self.base && addr - self.base <= self.bytes.len() && len <= self.bytes.len() - (addr - self.base)
    }

    /// The `len` bytes resident at `addr`, or `None` where they are not all in the window.
    pub fn read(&self, addr: usize, len: usize) -> (r: Option<Vec<u8>>)
        ensures
            r is Some <==> self@.covers(addr as int, len as int),
            r matches Some(v) ==> v@ == self@.read(addr as int, len as int),
    {
        if !self.covers(addr, len) {
            return None;
        }
        proof {
            use_type_invariant(self);
        }
        let o = addr - self.base;
        let v = vstd::slice::slice_to_vec(&self.bytes.as_slice()[o..o + len]);
        Some(v)
    }

    /// Writes `data` at `addr`; every byte outside that range stays as it was.
    pub fn write(&mut self, addr: usize, data: &[u8])
        requires
            old(self)@.covers(addr as int, data@.len() as int),
        ensures
            final(self)@ == old(self)@.write(addr as int, data@),
    {
        proof {
            use_type_invariant(&*self);
        }
        let o = addr - self.base;
        let n = self.bytes.len();
        let mut out: Vec<u8> = Vec::new();
        let mut k: usize = 0;
        while k < n
            invariant
                n == self.bytes@.len(),
                o as int + data@.len() <= n,
                o as int == addr as int - self@.base,
                k <= n,
                out@.len() == k,
                forall|j: int|
                    0 <= j < k ==> #[trigger] out@[j] == if o <= j < o + data@.len() {
                        data@[j - o]
                    } else {
                        self.bytes@[j]
                    },
            decreases n - k,
        {
            if o <= k && k - o < data.len() {
                out.push(data[k - o]);
            } else {
                out.push(self.bytes[k]);
            }
            k = k + 1;
        }
        proof {
            let w = self@.write(addr as int, data@);
            assert(out@ =~= w.bytes);
        }
        self.bytes = out;
    }
}

/// Writing `data` at `a` leaves it resident there, keeps the window's extent, and leaves
/// every range that does not meet `[a, a + data.len())` as it was.
pub proof fn lemma_write_effect(m: ImageView, a: int, data: Seq<u8>)
    requires
        m.covers(a, data.len() as int),
    ensures
        m.write(a, data).base == m.base,
        m.write(a, data).bytes.len() == m.bytes.len(),
        m.write(a, data).read(a, data.len() as int) == data,
        forall|b: int, len: int|
            m.covers(b, len) && (a + data.len() <= b || b + len <= a) ==> #[trigger] m.write(
                a,
                data,
            ).read(b, len) == m.read(b, len),
{
    let w = m.write(a, data);
    assert(w.read(a, data.len() as int) =~= data);
    assert forall|b: int, len: int|
        m.covers(b, len) && (a + data.len() <= b || b + len <= a) implies #[trigger] m.write(
            a,
            data,
        ).read(b, len) == m.read(b, len) by {
        assert(w.read(b, len) =~= m.read(b, len));
    }
}

} // verus!
