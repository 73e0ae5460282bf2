use vstd::prelude::*;

verus! {

/// A byte-addressed bus with a 16-bit address space.
///
/// A bus is described by three spec functions: `peek`, the byte that a
/// read at an address returns; `stores`, whether a write at an address is
/// kept; and `beyond`, the bytes that the bus holds where no 16-bit address
/// reaches. A read never changes the bus; a write changes at most the byte
/// at its own address, only where the bus stores it, and never what lies
/// beyond.
pub trait MemoryBus {
    /// The byte that a read at `address` returns.
    spec fn peek(&self, address: u16) -> u8;

    /// Whether a write at `address` is kept by the bus.
    spec fn stores(&self, address: u16) -> bool;

    /// The bytes that the bus holds where no 16-bit address reaches.
    spec fn beyond(&self) -> Seq<u8>;

    fn read(&self, address: u16) -> (value: u8)
        ensures
            value == self.peek(address),
    ;

    fn write(&mut self, address: u16, value: u8)
        ensures
            forall|a: u16|
                #[trigger] final(self).peek(a) == if a == address && old(self).stores(address) {
                    value
                } else {
                    old(self).peek(a)
                },
            forall|a: u16| #[trigger] final(self).stores(a) == old(self).stores(a),
            final(self).beyond() == old(self).beyond(),
    ;
}

/// The bytes that a bus reads, address by address.
pub open spec fn bus_image<M: MemoryBus>(m: M) -> Map<u16, u8> {
    Map::new(|a: u16| true, |a: u16| m.peek(a))
}

/// The addresses where a bus keeps writes.
pub open spec fn bus_stored<M: MemoryBus>(m: M) -> Set<u16> {
    Set::new(|a: u16| m.stores(a))
}

/// Where index `j` of a memory stands in a block loaded at `address`: the
/// distance from `address` up to `j`, counted modulo the size of `usize`.
pub open spec fn load_offset(address: u16, j: int) -> int {
    if j >= address {
        j - address
    } else {
        j - address + usize::MAX + 1
    }
}

/// A plain array of bytes. Addresses past its end read as zero and
/// ignore writes.
pub struct FlatMemory {
    data: Vec<u8>,
}

impl FlatMemory {
    /// The bytes of the memory.
    pub closed spec fn bytes(&self) -> Seq<u8> {
        self.data@
    }

    /// A memory of `size` bytes, all zero.
    pub fn new(size: usize) -> (mem: Self)
        ensures
            mem.bytes() == Seq::new(size as nat, |i: int| 0u8),
    {
        let mut data: Vec<u8> = Vec::new();
        let mut k: usize = 0;
        while k < size
            invariant
                k <= size,
                data@ == Seq::new(k as nat, |i: int| 0u8),
            decreases size - k,
        {
            data.push(0);
            k = k + 1;
        }
        Self { data }
    }

    /// A memory of `size` bytes, all zero, allocated up front.
    pub fn with_capacity(size: usize) -> (mem: Self)
        ensures
            mem.bytes() == Seq::new(size as nat, |i: int| 0u8),
    {
        let mut data: Vec<u8> = Vec::with_capacity(size);
        let mut k: usize = 0;
        while k < size
            invariant
                k <= size,
                data@ == Seq::new(k as nat, |i: int| 0u8),
            decreases size - k,
        {
            data.push(0);
            k = k + 1;
        }
        Self { data }
    }

    /// Copies `bytes` into memory from `address` on; byte `i` goes to index
    /// `address + i`, taken modulo the size of `usize`, and is dropped where
    /// that index is past the end of the memory. The addresses are not
    /// wrapped at 16 bits.
    pub fn load(&mut self, address: u16, bytes: &[u8])
        ensures
            final(self).bytes().len() == old(self).bytes().len(),
            forall|j: int|
                0 <= j < old(self).bytes().len() ==> #[trigger] final(self).bytes()[j] == (
                if load_offset(address, j) < bytes@.len() {
                    bytes@[load_offset(address, j)]
                } else {
                    old(self).bytes()[j]
                }),
    {
        let n = bytes.len();
        let mut i: usize = 0;
        while i < n
            invariant
                n == bytes@.len(),
                i <= n,
                self.data@.len() == old(self).data@.len(),
                forall|j: int|
                    0 <= j < old(self).data@.len() ==> #[trigger] self.data@[j] == if load_offset(
                        address,
                        j,
                    ) < i {
                        bytes@[load_offset(address, j)]
                    } else {
                        old(self).data@[j]
                    },
            decreases n - i,
        {
            let addr = (address as usize).wrapping_add(i);
            if addr < self.data.len() {
                self.data.set(addr, bytes[i]);
            }
            i = i + 1;
        }
    }

    /// The bytes of the memory.
    pub fn data(&self) -> (d: &[u8])
        ensures
            d@ == self.bytes(),
    {
        self.data.as_slice()
    }

    /// The bytes of the memory, for writing in place.
    pub fn data_mut(&mut self) -> (d: &mut [u8])
        ensures
            d@ == old(self).bytes(),
            final(d)@ == final(self).bytes(),
    {
        self.data.as_mut_slice()
    }
}

/// A flat memory is all that it shows as a bus: two of them that read the
/// same at every address, keep writes at the same addresses and hold the
/// same bytes beyond the address space hold the same bytes.
pub proof fn flat_memory_is_its_bus(m1: FlatMemory, m2: FlatMemory)
    requires
        bus_image(m1) == bus_image(m2),
        bus_stored(m1) == bus_stored(m2),
        m1.beyond() == m2.beyond(),
    ensures
        m1.bytes() == m2.bytes(),
{
    let (b1, b2) = (m1.bytes(), m2.bytes());
    assert forall|a: u16| m1.stores(a) == m2.stores(a) by {
        assert(bus_stored(m1).contains(a) == m1.stores(a));
        assert(bus_stored(m2).contains(a) == m2.stores(a));
    }
    assert forall|a: u16| m1.peek(a) == m2.peek(a) by {
        assert(bus_image(m1).dom().contains(a));
        assert(bus_image(m1)[a] == m1.peek(a));
        assert(bus_image(m2)[a] == m2.peek(a));
    }
    if b1.len() < b2.len() && b1.len() < 0x10000 {
        let k = b1.len() as u16;
        assert(!m1.stores(k) && m2.stores(k));
    }
    if b2.len() < b1.len() && b2.len() < 0x10000 {
        let k = b2.len() as u16;
        assert(!m2.stores(k) && m1.stores(k));
    }
    assert(m1.beyond().len() == if b1.len() > 0x10000 { b1.len() - 0x10000 } else { 0 });
    assert(m2.beyond().len() == if b2.len() > 0x10000 { b2.len() - 0x10000 } else { 0 });
    assert(b1.len() == b2.len());
    assert forall|j: int| 0 <= j < b1.len() implies b1[j] == b2[j] by {
        if j < 0x10000 {
            assert(m1.peek(j as u16) == m2.peek(j as u16));
        } else {
            assert(m1.beyond()[j - 0x10000] == b1[j]);
            assert(m2.beyond()[j - 0x10000] == b2[j]);
        }
    }
    assert(b1 =~= b2);
}

impl MemoryBus for FlatMemory {
    open spec fn peek(&self, address: u16) -> u8 {
        if (address as int) < self.bytes().len() {
            self.bytes()[address as int]
        } else {
            0
        }
    }

    open spec fn stores(&self, address: u16) -> bool {
        (address as int) < self.bytes().len()
    }

    /// The bytes from index 0x10000 on.
    open spec fn beyond(&self) -> Seq<u8> {
        if self.bytes().len() > 0x10000 {
            self.bytes().subrange(0x10000, self.bytes().len() as int)
        } else {
            Seq::empty()
        }
    }

    fn read(&self, address: u16) -> (value: u8) {
        if (address as usize) < self.data.len() {
            self.data[address as usize]
        } else {
            0
        }
    }

    fn write(&mut self, address: u16, value: u8)
        ensures
            final(self).bytes() == (if (address as int) < old(self).bytes().len() {
                old(self).bytes().update(address as int, value)
            } else {
                old(self).bytes()
            }),
    {
        if (address as usize) < self.data.len() {
            self.data.set(address as usize, value);
        }
        proof {
            if self.data@.len() > 0x10000 {
                assert(self.beyond() =~= old(self).beyond());
            }
        }
    }
}

} // verus!
