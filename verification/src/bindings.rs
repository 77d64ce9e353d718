//! The wire layout of the DualSense input report: the report itself, the
//! touch points inside it, and the bit fields that a touch point packs into
//! one byte. Multi-byte fields are little endian, and bit 0 of a byte is its
//! least significant bit.

use vstd::prelude::*;

verus! {

/// Bytes of one touch point on the wire.
pub const DUALSENSE_TOUCH_POINT_SIZE: usize = 4;

/// A touch point may start at any byte.
pub const DUALSENSE_TOUCH_POINT_ALIGN: usize = 1;

/// Bytes of the input report on the wire, after the report id.
pub const DUALSENSE_INPUT_REPORT_SIZE: usize = 63;

/// The input report may start at any byte.
pub const DUALSENSE_INPUT_REPORT_ALIGN: usize = 1;

/// Where the status byte lies in the input report.
pub const DUALSENSE_STATUS_OFFSET: usize = 52;

/// Bit `i` of a byte.
pub open spec fn byte_bit(b: u8, i: u8) -> bool {
    b & (1u8 << i) != 0
}

/// Bit `i` of a 64-bit value.
pub open spec fn value_bit(v: u64, i: u64) -> bool {
    v & (1u64 << i) != 0
}

/// Bit `k` of a run of bytes, counting from the least significant bit of the
/// first byte.
pub open spec fn storage_bit(s: Seq<u8>, k: int) -> bool {
    byte_bit(s[k / 8], (k % 8) as u8)
}

/// A byte with bit `i` set to `val`.
pub open spec fn with_bit(b: u8, i: u8, val: bool) -> u8 {
    if val {
        b | (1u8 << i)
    } else {
        b & !(1u8 << i)
    }
}

/// A 16-bit number from its two bytes, least significant first.
pub open spec fn le_u16(s: Seq<u8>, at: int) -> u16 {
    (s[at] + 256 * s[at + 1]) as u16
}

/// A 32-bit number from its four bytes, least significant first.
pub open spec fn le_u32(s: Seq<u8>, at: int) -> u32 {
    (s[at] + 256 * s[at + 1] + 65536 * s[at + 2] + 16777216 * s[at + 3]) as u32
}

proof fn lemma_with_bit(b: u8, i: u8, j: u8, val: bool)
    by (bit_vector)
    requires
        i < 8,
        j < 8,
    ensures
        byte_bit(with_bit(b, i, val), j) == (if j == i {
            val
        } else {
            byte_bit(b, j)
        }),
{
}

proof fn lemma_or_bit(v: u64, i: u64, j: u64)
    by (bit_vector)
    requires
        i < 64,
        j < 64,
    ensures
        value_bit(v | (1u64 << i), j) == (value_bit(v, j) || j == i),
{
}

proof fn lemma_zero_bit(j: u64)
    by (bit_vector)
    requires
        j < 64,
    ensures
        !value_bit(0u64, j),
{
}

proof fn lemma_or_bound(v: u64, i: u64)
    by (bit_vector)
    requires
        i < 63,
        v < (1u64 << i),
    ensures
        v | (1u64 << i) < (1u64 << ((i + 1) as u64)),
        v < (1u64 << ((i + 1) as u64)),
{
}

proof fn lemma_low_nibble(r: u64, b: u8)
    by (bit_vector)
    requires
        r < (1u64 << 4),
        value_bit(r, 0) == byte_bit(b, 0),
        value_bit(r, 1) == byte_bit(b, 1),
        value_bit(r, 2) == byte_bit(b, 2),
        value_bit(r, 3) == byte_bit(b, 3),
    ensures
        r == (b & 0x0f) as u64,
{
}

proof fn lemma_high_nibble(r: u64, b: u8)
    by (bit_vector)
    requires
        r < (1u64 << 4),
        value_bit(r, 0) == byte_bit(b, 4),
        value_bit(r, 1) == byte_bit(b, 5),
        value_bit(r, 2) == byte_bit(b, 6),
        value_bit(r, 3) == byte_bit(b, 7),
    ensures
        r == (b >> 4) as u64,
{
}

proof fn lemma_nibbles(c: u8, x: u8, y: u8)
    by (bit_vector)
    requires
        byte_bit(c, 0) == value_bit(x as u64, 0),
        byte_bit(c, 1) == value_bit(x as u64, 1),
        byte_bit(c, 2) == value_bit(x as u64, 2),
        byte_bit(c, 3) == value_bit(x as u64, 3),
        byte_bit(c, 4) == value_bit(y as u64, 0),
        byte_bit(c, 5) == value_bit(y as u64, 1),
        byte_bit(c, 6) == value_bit(y as u64, 2),
        byte_bit(c, 7) == value_bit(y as u64, 3),
    ensures
        c == (x & 0x0f) | ((y & 0x0f) << 4),
{
}

proof fn lemma_low_nibble_replaced(b: u8, c: u8, x: u8)
    by (bit_vector)
    requires
        byte_bit(c, 0) == value_bit(x as u64, 0),
        byte_bit(c, 1) == value_bit(x as u64, 1),
        byte_bit(c, 2) == value_bit(x as u64, 2),
        byte_bit(c, 3) == value_bit(x as u64, 3),
        byte_bit(c, 4) == byte_bit(b, 4),
        byte_bit(c, 5) == byte_bit(b, 5),
        byte_bit(c, 6) == byte_bit(b, 6),
        byte_bit(c, 7) == byte_bit(b, 7),
    ensures
        c == (b & 0xf0) | (x & 0x0f),
{
}

proof fn lemma_high_nibble_replaced(b: u8, c: u8, y: u8)
    by (bit_vector)
    requires
        byte_bit(c, 0) == byte_bit(b, 0),
        byte_bit(c, 1) == byte_bit(b, 1),
        byte_bit(c, 2) == byte_bit(b, 2),
        byte_bit(c, 3) == byte_bit(b, 3),
        byte_bit(c, 4) == value_bit(y as u64, 0),
        byte_bit(c, 5) == value_bit(y as u64, 1),
        byte_bit(c, 6) == value_bit(y as u64, 2),
        byte_bit(c, 7) == value_bit(y as u64, 3),
    ensures
        c == (b & 0x0f) | ((y & 0x0f) << 4),
{
}

/// A run of `N` bytes in which fields of any bit width are stored, bit 0 of
/// the run being the least significant bit of the first byte.
#[allow(non_camel_case_types)]
#[derive(Copy, Clone, Debug)]
pub struct __BindgenBitfieldUnit<const N: usize> {
    storage: [u8; N],
}

impl<const N: usize> View for __BindgenBitfieldUnit<N> {
    type V = Seq<u8>;

    closed spec fn view(&self) -> Seq<u8> {
        self.storage@
    }
}

impl<const N: usize> __BindgenBitfieldUnit<N> {
    /// A unit over the given bytes.
    pub fn new(storage: [u8; N]) -> (r: Self)
        ensures
            r@ == storage@,
    {
        Self { storage }
    }

    /// The bytes of the unit.
    pub fn storage(&self) -> (r: [u8; N])
        ensures
            r@ == self@,
    {
        self.storage
    }

    /// The unit always holds `N` bytes.
    pub proof fn lemma_len(&self)
        ensures
            self@.len() == N,
    {
    }

    /// Reads bit `index` of the unit.
    pub fn get_bit(&self, index: usize) -> (r: bool)
        requires
            index / 8 < N,
        ensures
            r == storage_bit(self@, index as int),
    {
        let byte_index = index / 8;
        let byte = self.storage[byte_index];
        let bit_index: u8 = (index % 8) as u8;
        let mask: u8 = 1u8 << bit_index;
        assert((byte & mask == mask) == (byte & mask != 0)) by (bit_vector)
            requires
                mask == 1u8 << bit_index,
                bit_index < 8,
        ;
        byte & mask == mask
    }

    /// Writes bit `index` of the unit and leaves every other bit as it was.
    pub fn set_bit(&mut self, index: usize, val: bool)
        requires
            index / 8 < N,
        ensures
            final(self)@ == old(self)@.update(
                index as int / 8,
                with_bit(old(self)@[index as int / 8], (index % 8) as u8, val),
            ),
            forall|k: int|
                0 <= k < 8 * N ==> #[trigger] storage_bit(final(self)@, k) == (if k == index {
                    val
                } else {
                    storage_bit(old(self)@, k)
                }),
    {
        let byte_index = index / 8;
        let bit_index: u8 = (index % 8) as u8;
        let mask: u8 = 1u8 << bit_index;
        let byte = self.storage[byte_index];
        let updated = if val {
            byte | mask
        } else {
            byte & !mask
        };
        self.storage[byte_index] = updated;
        proof {
            assert forall|k: int| 0 <= k < 8 * N implies #[trigger] storage_bit(self@, k) == (if k
                == index {
                val
            } else {
                storage_bit(old(self)@, k)
            }) by {
                if k / 8 == byte_index {
                    lemma_with_bit(byte, bit_index, (k % 8) as u8, val);
                }
            }
        }
    }

    /// Reads the field of `bit_width` bits that starts at bit `bit_offset`.
    /// Bit `i` of the result is bit `bit_offset + i` of the unit, and the
    /// bits from `bit_width` upwards are clear.
    pub fn get(&self, bit_offset: usize, bit_width: u8) -> (r: u64)
        requires
            bit_width <= 64,
            bit_offset / 8 < N,
            bit_offset + bit_width <= 8 * N,
            bit_offset + bit_width <= usize::MAX,
        ensures
            forall|i: u64|
                i < 64 ==> #[trigger] value_bit(r, i) == (i < bit_width && storage_bit(
                    self@,
                    bit_offset + i,
                )),
            bit_width < 64 ==> r < (1u64 << (bit_width as u64)),
    {
        let mut val: u64 = 0;
        let mut i: usize = 0;
        proof {
            assert forall|j: u64| j < 64 implies !#[trigger] value_bit(0u64, j) by {
                lemma_zero_bit(j);
            }
            assert(0u64 < (1u64 << 0u64)) by (bit_vector);
        }
        while i < bit_width as usize
            invariant
                i <= bit_width <= 64,
                bit_offset + bit_width <= 8 * N,
                bit_offset + bit_width <= usize::MAX,
                forall|j: u64|
                    j < 64 ==> #[trigger] value_bit(val, j) == (j < i && storage_bit(
                        self@,
                        bit_offset + j,
                    )),
                i < 64 ==> val < (1u64 << (i as u64)),
            decreases bit_width - i,
        {
            let ghost before = val;
            let bit = self.get_bit(i + bit_offset);
            if bit {
                val |= 1u64 << (i as u64);
            }
            proof {
                assert forall|j: u64| j < 64 implies #[trigger] value_bit(val, j) == (j < i + 1
                    && storage_bit(self@, bit_offset + j)) by {
                    lemma_or_bit(before, i as u64, j);
                    assert(value_bit(before, j) == (j < i && storage_bit(self@, bit_offset + j)));
                    if j == i {
                        assert(bit == storage_bit(self@, bit_offset + j));
                    }
                }
                if i < 63 {
                    lemma_or_bound(before, i as u64);
                }
            }
            i += 1;
        }
        val
    }

    /// Writes the low `bit_width` bits of `val` into the field that starts at
    /// bit `bit_offset`, and leaves every other bit of the unit as it was.
    pub fn set(&mut self, bit_offset: usize, bit_width: u8, val: u64)
        requires
            bit_width <= 64,
            bit_offset / 8 < N,
            bit_offset + bit_width <= 8 * N,
            bit_offset + bit_width <= usize::MAX,
        ensures
            forall|k: int|
                0 <= k < 8 * N ==> #[trigger] storage_bit(final(self)@, k) == (if bit_offset <= k
                    < bit_offset + bit_width {
                    value_bit(val, (k - bit_offset) as u64)
                } else {
                    storage_bit(old(self)@, k)
                }),
    {
        let mut i: usize = 0;
        while i < bit_width as usize
            invariant
                i <= bit_width <= 64,
                bit_offset + bit_width <= 8 * N,
                bit_offset + bit_width <= usize::MAX,
                forall|k: int|
                    0 <= k < 8 * N ==> #[trigger] storage_bit(self@, k) == (if bit_offset <= k
                        < bit_offset + i {
                        value_bit(val, (k - bit_offset) as u64)
                    } else {
                        storage_bit(old(self)@, k)
                    }),
            decreases bit_width - i,
        {
            let mask: u64 = 1u64 << (i as u64);
            let val_bit_is_set = val & mask == mask;
            assert(val_bit_is_set == value_bit(val, i as u64)) by (bit_vector)
                requires
                    mask == 1u64 << (i as u64),
                    i < 64,
                    val_bit_is_set == (val & mask == mask),
            ;
            self.set_bit(i + bit_offset, val_bit_is_set);
            i += 1;
        }
    }
}

/// One touch point of the DualSense touch pad: a contact byte and two 12-bit
/// coordinates, whose middle byte holds the high four bits of x in its low
/// half and the low four bits of y in its high half.
#[allow(non_camel_case_types)]
#[derive(Copy, Clone, Debug)]
pub struct dualsense_touch_point {
    pub contact: u8,
    pub x_lo: u8,
    pub _bitfield_align_1: [u8; 0],
    pub _bitfield_1: __BindgenBitfieldUnit<1>,
    pub y_hi: u8,
}

impl dualsense_touch_point {
    /// The byte that packs the two half coordinates.
    pub open spec fn packed(&self) -> u8 {
        self._bitfield_1@[0]
    }

    /// The high four bits of the x coordinate.
    pub fn x_hi(&self) -> (r: u8)
        ensures
            r == self.packed() & 0x0f,
    {
        let v = self._bitfield_1.get(0, 4);
        proof {
            self._bitfield_1.lemma_len();
            let b = self.packed();
            assert(value_bit(v, 0) == storage_bit(self._bitfield_1@, 0 + 0u64));
            assert(value_bit(v, 1) == storage_bit(self._bitfield_1@, 0 + 1u64));
            assert(value_bit(v, 2) == storage_bit(self._bitfield_1@, 0 + 2u64));
            assert(value_bit(v, 3) == storage_bit(self._bitfield_1@, 0 + 3u64));
            lemma_low_nibble(v, b);
            assert(((b & 0x0f) as u64) as u8 == b & 0x0f) by (bit_vector);
        }
        v as u8
    }

    /// Replaces the high four bits of the x coordinate by the low four bits
    /// of `val`.
    pub fn set_x_hi(&mut self, val: u8)
        ensures
            final(self).packed() == (old(self).packed() & 0xf0) | (val & 0x0f),
            final(self).contact == old(self).contact,
            final(self).x_lo == old(self).x_lo,
            final(self).y_hi == old(self).y_hi,
    {
        proof {
            self._bitfield_1.lemma_len();
        }
        self._bitfield_1.set(0, 4, val as u64);
        proof {
            self._bitfield_1.lemma_len();
            let b = old(self).packed();
            let c = self.packed();
            assert(storage_bit(self._bitfield_1@, 0) == value_bit(val as u64, 0));
            assert(storage_bit(self._bitfield_1@, 1) == value_bit(val as u64, 1));
            assert(storage_bit(self._bitfield_1@, 2) == value_bit(val as u64, 2));
            assert(storage_bit(self._bitfield_1@, 3) == value_bit(val as u64, 3));
            assert(storage_bit(self._bitfield_1@, 4) == storage_bit(old(self)._bitfield_1@, 4));
            assert(storage_bit(self._bitfield_1@, 5) == storage_bit(old(self)._bitfield_1@, 5));
            assert(storage_bit(self._bitfield_1@, 6) == storage_bit(old(self)._bitfield_1@, 6));
            assert(storage_bit(self._bitfield_1@, 7) == storage_bit(old(self)._bitfield_1@, 7));
            lemma_low_nibble_replaced(b, c, val);
        }
    }

    /// The low four bits of the y coordinate.
    pub fn y_lo(&self) -> (r: u8)
        ensures
            r == self.packed() >> 4,
    {
        let v = self._bitfield_1.get(4, 4);
        proof {
            self._bitfield_1.lemma_len();
            let b = self.packed();
            assert(value_bit(v, 0) == storage_bit(self._bitfield_1@, 4 + 0u64));
            assert(value_bit(v, 1) == storage_bit(self._bitfield_1@, 4 + 1u64));
            assert(value_bit(v, 2) == storage_bit(self._bitfield_1@, 4 + 2u64));
            assert(value_bit(v, 3) == storage_bit(self._bitfield_1@, 4 + 3u64));
            lemma_high_nibble(v, b);
            assert(((b >> 4) as u64) as u8 == b >> 4) by (bit_vector);
        }
        v as u8
    }

    /// Replaces the low four bits of the y coordinate by the low four bits of
    /// `val`.
    pub fn set_y_lo(&mut self, val: u8)
        ensures
            final(self).packed() == (old(self).packed() & 0x0f) | ((val & 0x0f) << 4),
            final(self).contact == old(self).contact,
            final(self).x_lo == old(self).x_lo,
            final(self).y_hi == old(self).y_hi,
    {
        proof {
            self._bitfield_1.lemma_len();
        }
        self._bitfield_1.set(4, 4, val as u64);
        proof {
            self._bitfield_1.lemma_len();
            let b = old(self).packed();
            let c = self.packed();
            assert(storage_bit(self._bitfield_1@, 0) == storage_bit(old(self)._bitfield_1@, 0));
            assert(storage_bit(self._bitfield_1@, 1) == storage_bit(old(self)._bitfield_1@, 1));
            assert(storage_bit(self._bitfield_1@, 2) == storage_bit(old(self)._bitfield_1@, 2));
            assert(storage_bit(self._bitfield_1@, 3) == storage_bit(old(self)._bitfield_1@, 3));
            assert(storage_bit(self._bitfield_1@, 4) == value_bit(val as u64, 0));
            assert(storage_bit(self._bitfield_1@, 5) == value_bit(val as u64, 1));
            assert(storage_bit(self._bitfield_1@, 6) == value_bit(val as u64, 2));
            assert(storage_bit(self._bitfield_1@, 7) == value_bit(val as u64, 3));
            lemma_high_nibble_replaced(b, c, val);
        }
    }

    /// The packed byte for the given half coordinates.
    pub fn new_bitfield_1(x_hi: u8, y_lo: u8) -> (r: __BindgenBitfieldUnit<1>)
        ensures
            r@.len() == 1,
            r@[0] == (x_hi & 0x0f) | ((y_lo & 0x0f) << 4),
    {
        let mut unit: __BindgenBitfieldUnit<1> = __BindgenBitfieldUnit::new([0u8]);
        let ghost zero = unit;
        unit.set(0, 4, x_hi as u64);
        let ghost first = unit;
        unit.set(4, 4, y_lo as u64);
        proof {
            unit.lemma_len();
            first.lemma_len();
            zero.lemma_len();
            assert(storage_bit(unit@, 0) == storage_bit(first@, 0));
            assert(storage_bit(unit@, 1) == storage_bit(first@, 1));
            assert(storage_bit(unit@, 2) == storage_bit(first@, 2));
            assert(storage_bit(unit@, 3) == storage_bit(first@, 3));
            assert(storage_bit(first@, 0) == value_bit(x_hi as u64, 0));
            assert(storage_bit(first@, 1) == value_bit(x_hi as u64, 1));
            assert(storage_bit(first@, 2) == value_bit(x_hi as u64, 2));
            assert(storage_bit(first@, 3) == value_bit(x_hi as u64, 3));
            assert(storage_bit(unit@, 4) == value_bit(y_lo as u64, 0));
            assert(storage_bit(unit@, 5) == value_bit(y_lo as u64, 1));
            assert(storage_bit(unit@, 6) == value_bit(y_lo as u64, 2));
            assert(storage_bit(unit@, 7) == value_bit(y_lo as u64, 3));
            lemma_nibbles(unit@[0], x_hi, y_lo);
        }
        unit
    }

    /// What four bytes on the wire say of a touch point.
    pub open spec fn holds(&self, s: Seq<u8>, at: int) -> bool {
        &&& self.contact == s[at]
        &&& self.x_lo == s[at + 1]
        &&& self._bitfield_1@ == seq![s[at + 2]]
        &&& self.y_hi == s[at + 3]
    }

    /// Reads a touch point from the first four bytes of `bytes`.
    pub fn parse(bytes: &[u8]) -> (r: Option<dualsense_touch_point>)
        ensures
            r is Some <==> bytes@.len() >= DUALSENSE_TOUCH_POINT_SIZE,
            r is Some ==> r.unwrap().holds(bytes@, 0),
    {
        if bytes.len() < DUALSENSE_TOUCH_POINT_SIZE {
            return None;
        }
        Some(touch_point_at(bytes, 0))
    }
}

/// Reads the touch point that starts at `at`.
fn touch_point_at(bytes: &[u8], at: usize) -> (r: dualsense_touch_point)
    requires
        at + DUALSENSE_TOUCH_POINT_SIZE <= bytes@.len(),
    ensures
        r.holds(bytes@, at as int),
{
    assert(bytes.len() == bytes@.len());
    let unit = __BindgenBitfieldUnit::new([bytes[at + 2]]);
    assert(unit@ =~= seq![bytes@[at + 2]]);
    dualsense_touch_point {
        contact: bytes[at],
        x_lo: bytes[at + 1],
        _bitfield_align_1: [],
        _bitfield_1: unit,
        y_hi: bytes[at + 3],
    }
}

/// Reads the 16-bit number that starts at `at`.
pub fn u16_at(bytes: &[u8], at: usize) -> (r: u16)
    requires
        at + 2 <= bytes@.len(),
    ensures
        r == le_u16(bytes@, at as int),
{
    assert(bytes.len() == bytes@.len());
    bytes[at] as u16 + 256 * (bytes[at + 1] as u16)
}

/// Reads the 32-bit number that starts at `at`.
pub fn u32_at(bytes: &[u8], at: usize) -> (r: u32)
    requires
        at + 4 <= bytes@.len(),
    ensures
        r == le_u32(bytes@, at as int),
{
    assert(bytes.len() == bytes@.len());
    bytes[at] as u32 + 256 * (bytes[at + 1] as u32) + 65536 * (bytes[at + 2] as u32) + 16777216 * (
    bytes[at + 3] as u32)
}

/// The DualSense input report after its report id, field by field in wire
/// order.
#[allow(non_camel_case_types)]
#[derive(Copy, Clone, Debug)]
pub struct dualsense_input_report {
    pub x: u8,
    pub y: u8,
    pub rx: u8,
    pub ry: u8,
    pub z: u8,
    pub rz: u8,
    pub seq_number: u8,
    pub buttons: [u8; 4],
    pub reserved: [u8; 4],
    pub gyro: [u16; 3],
    pub accel: [u16; 3],
    pub sensor_timestamp: u32,
    pub reserved2: u8,
    pub points: [dualsense_touch_point; 2],
    pub reserved3: [u8; 12],
    pub status: u8,
    pub reserved4: [u8; 10],
}

impl dualsense_input_report {
    /// What the first 63 bytes of `s` say of a report: each field at its
    /// offset.
    pub open spec fn holds(&self, s: Seq<u8>) -> bool {
        &&& self.x == s[0]
        &&& self.y == s[1]
        &&& self.rx == s[2]
        &&& self.ry == s[3]
        &&& self.z == s[4]
        &&& self.rz == s[5]
        &&& self.seq_number == s[6]
        &&& self.buttons@ == s.subrange(7, 11)
        &&& self.reserved@ == s.subrange(11, 15)
        &&& self.gyro@ == seq![le_u16(s, 15), le_u16(s, 17), le_u16(s, 19)]
        &&& self.accel@ == seq![le_u16(s, 21), le_u16(s, 23), le_u16(s, 25)]
        &&& self.sensor_timestamp == le_u32(s, 27)
        &&& self.reserved2 == s[31]
        &&& self.points@.len() == 2
        &&& self.points@[0].holds(s, 32)
        &&& self.points@[1].holds(s, 36)
        &&& self.reserved3@ == s.subrange(40, 52)
        &&& self.status == s[DUALSENSE_STATUS_OFFSET as int]
        &&& self.reserved4@ == s.subrange(53, 63)
    }

    /// Reads a report from the first 63 bytes of `bytes`; what follows them
    /// is ignored. Fewer bytes are no report.
    pub fn parse(bytes: &[u8]) -> (r: Option<dualsense_input_report>)
        ensures
            r is Some <==> bytes@.len() >= DUALSENSE_INPUT_REPORT_SIZE,
            r is Some ==> r.unwrap().holds(bytes@),
    {
        if bytes.len() < DUALSENSE_INPUT_REPORT_SIZE {
            return None;
        }
        let report = dualsense_input_report {
            x: bytes[0],
            y: bytes[1],
            rx: bytes[2],
            ry: bytes[3],
            z: bytes[4],
            rz: bytes[5],
            seq_number: bytes[6],
            buttons: [bytes[7], bytes[8], bytes[9], bytes[10]],
            reserved: [bytes[11], bytes[12], bytes[13], bytes[14]],
            gyro: [u16_at(bytes, 15), u16_at(bytes, 17), u16_at(bytes, 19)],
            accel: [u16_at(bytes, 21), u16_at(bytes, 23), u16_at(bytes, 25)],
            sensor_timestamp: u32_at(bytes, 27),
            reserved2: bytes[31],
            points: [touch_point_at(bytes, 32), touch_point_at(bytes, 36)],
            reserved3: [
                bytes[40],
                bytes[41],
                bytes[42],
                bytes[43],
                bytes[44],
                bytes[45],
                bytes[46],
                bytes[47],
                bytes[48],
                bytes[49],
                bytes[50],
                bytes[51],
            ],
            status: bytes[52],
            reserved4: [
                bytes[53],
                bytes[54],
                bytes[55],
                bytes[56],
                bytes[57],
                bytes[58],
                bytes[59],
                bytes[60],
                bytes[61],
                bytes[62],
            ],
        };
        proof {
            let s = bytes@;
            assert(report.buttons@ =~= s.subrange(7, 11));
            assert(report.reserved@ =~= s.subrange(11, 15));
            assert(report.gyro@ =~= seq![le_u16(s, 15), le_u16(s, 17), le_u16(s, 19)]);
            assert(report.accel@ =~= seq![le_u16(s, 21), le_u16(s, 23), le_u16(s, 25)]);
            assert(report.reserved3@ =~= s.subrange(40, 52));
            assert(report.reserved4@ =~= s.subrange(53, 63));
        }
        Some(report)
    }
}

} // verus!
