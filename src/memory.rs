use vstd::prelude::*;

verus! {

/// The byte at `a` of `s` as a 32-bit value.
pub open spec fn byte_at(s: Seq<u8>, a: int) -> u32 {
    s[a] as u32
}

/// The little-endian halfword stored at `a..a+2` of `s`.
pub open spec fn read_u16(s: Seq<u8>, a: int) -> u16 {
    ((s[a] as u16) | ((s[a + 1] as u16) << 8u16)) as u16
}

/// The little-endian word stored at `a..a+4` of `s`.
pub open spec fn read_u32(s: Seq<u8>, a: int) -> u32 {
    ((s[a] as u32) | ((s[a + 1] as u32) << 8u32) | ((s[a + 2] as u32) << 16u32) | ((s[a + 3]
        as u32) << 24u32)) as u32
}

/// The two bytes of `v`, least significant first.
pub open spec fn le_bytes_u16(v: u16) -> Seq<u8> {
    seq![(v & 0xFF) as u8, ((v >> 8u16) & 0xFF) as u8]
}

/// The four bytes of `v`, least significant first.
pub open spec fn le_bytes_u32(v: u32) -> Seq<u8> {
    seq![
        (v & 0xFF) as u8,
        ((v >> 8u32) & 0xFF) as u8,
        ((v >> 16u32) & 0xFF) as u8,
        ((v >> 24u32) & 0xFF) as u8,
    ]
}

/// `s` with `b[k]` written at `a + k` for every index `k` of `b`.
pub open spec fn write_bytes(s: Seq<u8>, a: int, b: Seq<u8>) -> Seq<u8> {
    Seq::new(s.len(), |i: int| if a <= i < a + b.len() { b[i - a] } else { s[i] })
}

/// A byte stored with `set_u8` reads back unchanged.
pub proof fn lemma_u8_round_trip(m: Memory, a: u32, v: u8)
    requires
        (a as int) < m@.len(),
    ensures
        m@.update(a as int, v)[a as int] == v,
{
}

/// A halfword stored with `set_u16` at any address, aligned or not, where both
/// of its bytes fit, reads back unchanged through `get_u16`.
pub proof fn lemma_u16_round_trip(m: Memory, a: u32, v: u16)
    requires
        a + 2 <= m@.len(),
    ensures
        read_u16(write_bytes(m@, a as int, le_bytes_u16(v)), a as int) == v,
{
    let t = write_bytes(m@, a as int, le_bytes_u16(v));
    let b0 = t[a as int];
    let b1 = t[a + 1];
    assert(b0 == (v & 0xFF) as u8);
    assert(b1 == ((v >> 8u16) & 0xFF) as u8);
    assert(((((v & 0xFF) as u8) as u16) | (((((v >> 8u16) & 0xFF) as u8) as u16) << 8u16))
        == v) by (bit_vector);
}

/// A word stored with `set_u32` at any address, aligned or not, where its four
/// bytes fit, reads back unchanged through `get_u32`.
pub proof fn lemma_u32_round_trip(m: Memory, a: u32, v: u32)
    requires
        a + 4 <= m@.len(),
    ensures
        read_u32(write_bytes(m@, a as int, le_bytes_u32(v)), a as int) == v,
{
    let t = write_bytes(m@, a as int, le_bytes_u32(v));
    assert(t[a as int] == (v & 0xFF) as u8);
    assert(t[a + 1] == ((v >> 8u32) & 0xFF) as u8);
    assert(t[a + 2] == ((v >> 16u32) & 0xFF) as u8);
    assert(t[a + 3] == ((v >> 24u32) & 0xFF) as u8);
    assert(((((v & 0xFF) as u8) as u32) | (((((v >> 8u32) & 0xFF) as u8) as u32) << 8u32) | (((((
    v >> 16u32) & 0xFF) as u8) as u32) << 16u32) | (((((v >> 24u32) & 0xFF) as u8) as u32)
        << 24u32)) == v) by (bit_vector);
}

/// A word stored with `set_u32` at `a` lies in memory least significant byte
/// first: the bytes at `a`, `a+1`, `a+2` and `a+3` are bits 0-7, 8-15, 16-23 and
/// 24-31 of the word.
pub proof fn lemma_u32_little_endian(m: Memory, a: u32, v: u32)
    requires
        a + 4 <= m@.len(),
    ensures
        ({
            let t = write_bytes(m@, a as int, le_bytes_u32(v));
            &&& byte_at(t, a as int) == v & 0xFF
            &&& byte_at(t, a + 1) == (v >> 8u32) & 0xFF
            &&& byte_at(t, a + 2) == (v >> 16u32) & 0xFF
            &&& byte_at(t, a + 3) == (v >> 24u32) & 0xFF
        }),
{
    assert(((v & 0xFF) as u8) as u32 == v & 0xFF) by (bit_vector);
    assert((((v >> 8u32) & 0xFF) as u8) as u32 == (v >> 8u32) & 0xFF) by (bit_vector);
    assert((((v >> 16u32) & 0xFF) as u8) as u32 == (v >> 16u32) & 0xFF) by (bit_vector);
    assert((((v >> 24u32) & 0xFF) as u8) as u32 == (v >> 24u32) & 0xFF) by (bit_vector);
}

/// A byte-addressed linear memory of fixed capacity.
pub struct Memory {
    bytes: Vec<u8>,
}

impl View for Memory {
    type V = Seq<u8>;

    closed spec fn view(&self) -> Seq<u8> {
        self.bytes@
    }
}

impl Memory {
    /// A zero-filled memory of `memsize` bytes.
    pub fn new(memsize: usize) -> (r: Memory)
        requires
            memsize > 0,
        ensures
            r@ == Seq::new(memsize as nat, |i: int| 0u8),
    {
        let bytes: Vec<u8> = vec![0u8; memsize];
        let r = Memory { bytes };
        assert(r@ =~= Seq::new(memsize as nat, |i: int| 0u8));
        r
    }

    /// The bytes of the memory, in address order.
    pub fn get_memory(&self) -> (r: &Vec<u8>)
        ensures
            r@ == self@,
    {
        &self.bytes
    }

    /// Stores `value` at `address`.
    pub fn set_u8(&mut self, address: u32, value: u8)
        requires
            (address as int) < old(self)@.len(),
        ensures
            final(self)@ == old(self)@.update(address as int, value),
    {
        self.bytes.set(address as usize, value);
    }

    /// The byte at `address`.
    pub fn get_u8(&self, address: u32) -> (r: u8)
        requires
            (address as int) < self@.len(),
        ensures
            r == self@[address as int],
    {
        self.bytes[address as usize]
    }

    /// Stores `value` at `address..address+2`, low byte first.
    pub fn set_u16(&mut self, address: u32, value: u16)
        requires
            address + 2 <= old(self)@.len(),
        ensures
            final(self)@ == write_bytes(old(self)@, address as int, le_bytes_u16(value)),
    {
        let len = self.bytes.len();
        let a = address as usize;
        assert(a + 2 <= len);
        self.bytes.set(a, (value & 0xFF) as u8);
        self.bytes.set(a + 1, ((value >> 8u16) & 0xFF) as u8);
        assert(self@ =~= write_bytes(old(self)@, address as int, le_bytes_u16(value)));
    }

    /// The little-endian halfword at `address..address+2`.
    pub fn get_u16(&self, address: u32) -> (r: u16)
        requires
            address + 2 <= self@.len(),
        ensures
            r == read_u16(self@, address as int),
    {
        let len = self.bytes.len();
        let a = address as usize;
        assert(a + 2 <= len);
        (self.bytes[a] as u16) | ((self.bytes[a + 1] as u16) << 8u16)
    }

    /// Stores `value` at `address..address+4`, least significant byte first.
    pub fn set_u32(&mut self, address: u32, value: u32)
        requires
            address + 4 <= old(self)@.len(),
        ensures
            final(self)@ == write_bytes(old(self)@, address as int, le_bytes_u32(value)),
    {
        let len = self.bytes.len();
        let a = address as usize;
        assert(a + 4 <= len);
        self.bytes.set(a, (value & 0xFF) as u8);
        self.bytes.set(a + 1, ((value >> 8u32) & 0xFF) as u8);
        self.bytes.set(a + 2, ((value >> 16u32) & 0xFF) as u8);
        self.bytes.set(a + 3, ((value >> 24u32) & 0xFF) as u8);
        assert(self@ =~= write_bytes(old(self)@, address as int, le_bytes_u32(value)));
    }

    /// The little-endian word at `address..address+4`.
    pub fn get_u32(&self, address: u32) -> (r: u32)
        requires
            address + 4 <= self@.len(),
        ensures
            r == read_u32(self@, address as int),
    {
        let len = self.bytes.len();
        let a = address as usize;
        assert(a + 4 <= len);
        (self.bytes[a] as u32) | ((self.bytes[a + 1] as u32) << 8u32) | ((self.bytes[a + 2]
            as u32) << 16u32) | ((self.bytes[a + 3] as u32) << 24u32)
    }

    /// Copies `image` into memory, byte `i` of it to `offset + i`.
    pub fn load_image(&mut self, offset: u32, image: &Vec<u8>)
        requires
            offset + image@.len() <= old(self)@.len(),
        ensures
            final(self)@ == write_bytes(old(self)@, offset as int, image@),
    {
        let n = image.len();
        let mut i: usize = 0;
        while i < n
            invariant
                n == image@.len(),
                i <= n,
                offset + n <= old(self)@.len(),
                self@ == write_bytes(old(self)@, offset as int, image@.take(i as int)),
            decreases n - i,
        {
            let len = self.bytes.len();
            assert(offset as usize + i < len);
            self.bytes.set(offset as usize + i, image[i]);
            i = i + 1;
            assert(self@ =~= write_bytes(old(self)@, offset as int, image@.take(i as int)));
        }
        assert(image@.take(n as int) =~= image@);
    }
}

} // verus!
