//! Field codec: packing and unpacking bit-precise field values into the
//! logical (byte-order-resolved) value of a register.

use vstd::prelude::*;

verus! {

/// Bit mask with the low `width` bits set.
pub open spec fn mask_bits(width: u32) -> u32
    recommends
        width <= 32,
{
    if width >= 32 {
        0xffff_ffffu32
    } else {
        ((1u32 << width) - 1) as u32
    }
}

/// The `width` bits of `reg` starting at bit `offset`, shifted down to bit 0.
pub open spec fn extract_bits(reg: u32, offset: u32, width: u32) -> u32
    recommends
        width >= 1,
        offset + width <= 32,
{
    (reg >> offset) & mask_bits(width)
}

/// `reg` with the `width` bits starting at bit `offset` replaced by the low
/// `width` bits of `value`; all other bits of `reg` are kept.
pub open spec fn insert_bits(reg: u32, offset: u32, width: u32, value: u32) -> u32
    recommends
        width >= 1,
        offset + width <= 32,
        value <= mask_bits(width),
{
    (reg & !(mask_bits(width) << offset)) | ((value & mask_bits(width)) << offset)
}

/// An extracted field value always fits in its width.
pub proof fn lemma_extract_bits_in_range(reg: u32, offset: u32, width: u32)
    by (bit_vector)
    requires
        width >= 1,
        offset + width <= 32,
    ensures
        extract_bits(reg, offset, width) <= mask_bits(width),
{
}

/// Reading a field back out of the register it was just inserted into
/// returns the inserted value.
pub proof fn lemma_extract_of_insert(reg: u32, offset: u32, width: u32, value: u32)
    by (bit_vector)
    requires
        width >= 1,
        offset + width <= 32,
        value <= mask_bits(width),
    ensures
        extract_bits(insert_bits(reg, offset, width, value), offset, width) == value,
{
}

/// Inserting a field into a register value that fits its width gives a
/// value that still fits that width.
pub proof fn lemma_insert_bits_in_width(
    reg: u32,
    offset: u32,
    width: u32,
    value: u32,
    size_bits: u32,
)
    by (bit_vector)
    requires
        width >= 1,
        offset + width <= size_bits,
        size_bits <= 32,
        reg <= mask_bits(size_bits),
        value <= mask_bits(width),
    ensures
        insert_bits(reg, offset, width, value) <= mask_bits(size_bits),
{
}

/// Inserting into one bit range leaves every disjoint bit range unchanged.
pub proof fn lemma_insert_preserves_disjoint(
    reg: u32,
    offset: u32,
    width: u32,
    value: u32,
    other_offset: u32,
    other_width: u32,
)
    by (bit_vector)
    requires
        width >= 1,
        offset + width <= 32,
        other_width >= 1,
        other_offset + other_width <= 32,
        offset + width <= other_offset || other_offset + other_width <= offset,
    ensures
        extract_bits(insert_bits(reg, offset, width, value), other_offset, other_width)
            == extract_bits(reg, other_offset, other_width),
{
}

/// Mask with the low `width` bits set.
pub fn mask_bits_exec(width: u32) -> (r: u32)
    requires
        width <= 32,
    ensures
        r == mask_bits(width),
{
    if width >= 32 {
        0xffff_ffffu32
    } else {
        proof {
            assert(width < 32 ==> (1u32 << width) >= 1) by (bit_vector);
        }
        (1u32 << width) - 1
    }
}

/// The `width` bits of `reg` starting at bit `offset`, shifted down to bit 0.
pub fn extract_bits_exec(reg: u32, offset: u32, width: u32) -> (r: u32)
    requires
        width >= 1,
        offset + width <= 32,
    ensures
        r == extract_bits(reg, offset, width),
{
    (reg >> offset) & mask_bits_exec(width)
}

/// `reg` with the `width` bits starting at bit `offset` replaced by the low
/// `width` bits of `value`.
pub fn insert_bits_exec(reg: u32, offset: u32, width: u32, value: u32) -> (r: u32)
    requires
        width >= 1,
        offset + width <= 32,
        value <= mask_bits(width),
    ensures
        r == insert_bits(reg, offset, width, value),
{
    let m = mask_bits_exec(width);
    (reg & !(m << offset)) | ((value & m) << offset)
}

/// Order in which the bytes of a multi-byte register appear on the bus.
#[derive(Clone, Copy, PartialEq, Eq, Structural, Debug)]
pub enum ByteOrder {
    BigEndian,
    LittleEndian,
}

/// Logical value of a big-endian buffer: the first byte is the most
/// significant.
pub open spec fn buffer_value_be(s: Seq<u8>) -> nat
    decreases s.len(),
{
    if s.len() == 0 {
        0
    } else {
        (buffer_value_be(s.drop_last()) * 256 + s.last()) as nat
    }
}

/// Logical value of a little-endian buffer: the first byte is the least
/// significant.
pub open spec fn buffer_value_le(s: Seq<u8>) -> nat
    decreases s.len(),
{
    if s.len() == 0 {
        0
    } else {
        (s[0] + buffer_value_le(s.skip(1)) * 256) as nat
    }
}

/// Logical value of a register buffer under the given byte order.
pub open spec fn buffer_value(s: Seq<u8>, order: ByteOrder) -> nat {
    match order {
        ByteOrder::BigEndian => buffer_value_be(s),
        ByteOrder::LittleEndian => buffer_value_le(s),
    }
}

/// Byte `index` of `v`, counting from the least significant byte.
pub open spec fn value_byte(v: u32, index: u32) -> u8
    recommends
        index <= 3,
{
    if index == 0 {
        (v & 0xff) as u8
    } else if index == 1 {
        ((v >> 8) & 0xff) as u8
    } else if index == 2 {
        ((v >> 16) & 0xff) as u8
    } else {
        ((v >> 24) & 0xff) as u8
    }
}

/// The `count`-byte buffer holding `v` under the given byte order.
pub open spec fn value_bytes(v: u32, count: nat, order: ByteOrder) -> Seq<u8>
    recommends
        1 <= count <= 4,
        v <= mask_bits((8 * count) as u32),
{
    match order {
        ByteOrder::BigEndian => Seq::new(count, |i: int| value_byte(v, (count - 1 - i) as u32)),
        ByteOrder::LittleEndian => Seq::new(count, |i: int| value_byte(v, i as u32)),
    }
}

/// Reassemble the logical value of a register from its bus bytes.
pub fn load_buffer(bytes: &Vec<u8>, order: ByteOrder) -> (r: u32)
    requires
        1 <= bytes@.len() <= 4,
    ensures
        r == buffer_value(bytes@, order),
{
    proof {
        reveal_with_fuel(buffer_value_be, 5);
        reveal_with_fuel(buffer_value_le, 5);
    }
    let n = bytes.len();
    let mut r: u32 = 0;
    let mut i: usize = 0;
    match order {
        ByteOrder::BigEndian => {
            while i < n
                invariant
                    i <= n,
                    n == bytes@.len(),
                    1 <= n <= 4,
                    r == buffer_value_be(bytes@.take(i as int)),
                    r <= mask_bits((8 * i) as u32),
                decreases n - i,
            {
                proof {
                    lemma_be_step(bytes@, i as int, r);
                }
                r = r * 256 + bytes[i] as u32;
                i = i + 1;
            }
            proof {
                assert(bytes@.take(n as int) =~= bytes@);
            }
            r
        },
        ByteOrder::LittleEndian => {
            while i < n
                invariant
                    i <= n,
                    n == bytes@.len(),
                    1 <= n <= 4,
                    buffer_value_le(bytes@) == r + buffer_value_le(bytes@.skip(i as int)) * pow256(
                        i as u32,
                    ),
                    r < pow256(i as u32),
                    i < 4 ==> pow256(i as u32) <= 0x1000000,
                decreases n - i,
            {
                proof {
                    lemma_le_step(bytes@, i as int, r);
                }
                r = r + bytes[i] as u32 * pow256_exec(i as u32);
                i = i + 1;
            }
            proof {
                assert(bytes@.skip(n as int) =~= Seq::<u8>::empty());
                assert(buffer_value_le(Seq::<u8>::empty()) == 0);
            }
            r
        },
    }
}

/// 256 to the power `e`, for the byte positions of a 32-bit register.
spec fn pow256(e: u32) -> nat
    recommends
        e <= 4,
{
    if e == 0 {
        1
    } else if e == 1 {
        256
    } else if e == 2 {
        0x10000
    } else if e == 3 {
        0x1000000
    } else {
        0x100000000
    }
}

fn pow256_exec(e: u32) -> (r: u32)
    requires
        e <= 3,
    ensures
        r == pow256(e),
{
    if e == 0 {
        1
    } else if e == 1 {
        256
    } else if e == 2 {
        0x10000
    } else {
        0x1000000
    }
}

proof fn lemma_be_step(s: Seq<u8>, i: int, r: u32)
    requires
        0 <= i < s.len() <= 4,
        r == buffer_value_be(s.take(i)),
        r <= mask_bits((8 * i) as u32),
    ensures
        buffer_value_be(s.take(i + 1)) == r * 256 + s[i],
        r * 256 + s[i] <= mask_bits((8 * (i + 1)) as u32),
{
    assert(s.take(i + 1).drop_last() =~= s.take(i));
    assert(s.take(i + 1).last() == s[i]);
    let iw = i as u32;
    assert(mask_bits((8 * iw) as u32) * 256 + 255 <= mask_bits((8 * (iw + 1)) as u32)) by (bit_vector)
        requires
            iw < 4,
    ;
    assert((8 * iw) as u32 == (8 * i) as u32);
    assert((8 * (iw + 1)) as u32 == (8 * (i + 1)) as u32);
    assert(r * 256 <= mask_bits((8 * i) as u32) * 256) by (nonlinear_arith)
        requires
            r <= mask_bits((8 * i) as u32),
    ;
}

proof fn lemma_le_step(s: Seq<u8>, i: int, r: u32)
    requires
        0 <= i < s.len() <= 4,
        buffer_value_le(s) == r + buffer_value_le(s.skip(i)) * pow256(i as u32),
        r < pow256(i as u32),
    ensures
        buffer_value_le(s) == (r + s[i] * pow256(i as u32)) + buffer_value_le(s.skip(i + 1))
            * pow256((i + 1) as u32),
        r + s[i] * pow256(i as u32) < pow256((i + 1) as u32),
{
    assert(s.skip(i).len() > 0);
    assert(s.skip(i)[0] == s[i]);
    assert(s.skip(i).skip(1) =~= s.skip(i + 1));
    let rest = buffer_value_le(s.skip(i + 1));
    assert(buffer_value_le(s.skip(i)) == s[i] + rest * 256);
    let p = pow256(i as u32);
    assert((s[i] + rest * 256) * p == s[i] * p + rest * (256 * p)) by (nonlinear_arith);
    assert(256 * pow256(i as u32) == pow256((i + 1) as u32));
    assert(r + s[i] * p < 256 * p) by (nonlinear_arith)
        requires
            r < p,
            s[i] <= 255,
            p >= 1,
    ;
}

/// Store the logical value of a register as its bus bytes.
pub fn store_buffer(v: u32, count: usize, order: ByteOrder) -> (r: Vec<u8>)
    requires
        1 <= count <= 4,
        v <= mask_bits((8 * count) as u32),
    ensures
        r@ == value_bytes(v, count as nat, order),
{
    let mut r: Vec<u8> = Vec::new();
    let mut i: usize = 0;
    while i < count
        invariant
            i <= count,
            1 <= count <= 4,
            r@.len() == i,
            forall|j: int| 0 <= j < i ==> r@[j] == value_bytes(v, count as nat, order)[j],
        decreases count - i,
    {
        let b = match order {
            ByteOrder::BigEndian => value_byte_exec(v, (count - 1 - i) as u32),
            ByteOrder::LittleEndian => value_byte_exec(v, i as u32),
        };
        r.push(b);
        i = i + 1;
    }
    proof {
        assert(r@ =~= value_bytes(v, count as nat, order));
    }
    r
}

/// Byte `index` of `v`, counting from the least significant byte.
pub fn value_byte_exec(v: u32, index: u32) -> (r: u8)
    requires
        index <= 3,
    ensures
        r == value_byte(v, index),
{
    if index == 0 {
        (v & 0xff) as u8
    } else if index == 1 {
        ((v >> 8) & 0xff) as u8
    } else if index == 2 {
        ((v >> 16) & 0xff) as u8
    } else {
        ((v >> 24) & 0xff) as u8
    }
}

/// A register buffer never holds more than its width's worth of value.
pub proof fn lemma_buffer_value_bound(s: Seq<u8>, order: ByteOrder)
    requires
        s.len() <= 4,
    ensures
        buffer_value(s, order) <= mask_bits((8 * s.len()) as u32),
    decreases s.len(),
{
    if s.len() == 0 {
    } else {
        let n = s.len() as u32;
        match order {
            ByteOrder::BigEndian => {
                lemma_buffer_value_bound(s.drop_last(), order);
                let head = buffer_value_be(s.drop_last());
                assert(head <= mask_bits((8 * (n - 1)) as u32));
                lemma_mask_byte_step(n);
                assert(head * 256 <= mask_bits((8 * (n - 1)) as u32) * 256) by (nonlinear_arith)
                    requires
                        head <= mask_bits((8 * (n - 1)) as u32),
                ;
            },
            ByteOrder::LittleEndian => {
                lemma_buffer_value_bound(s.skip(1), order);
                assert(s.skip(1).len() == s.len() - 1);
                let rest = buffer_value_le(s.skip(1));
                assert(rest <= mask_bits((8 * (n - 1)) as u32));
                lemma_mask_byte_step(n);
                assert(rest * 256 <= mask_bits((8 * (n - 1)) as u32) * 256) by (nonlinear_arith)
                    requires
                        rest <= mask_bits((8 * (n - 1)) as u32),
                ;
                assert(buffer_value_le(s) == (s[0] + rest * 256) as nat);
            },
        }
    }
}

proof fn lemma_mask_byte_step(n: u32)
    requires
        1 <= n <= 4,
    ensures
        mask_bits((8 * (n - 1)) as u32) * 256 + 255 == mask_bits((8 * n) as u32),
{
    let m = (n - 1) as u32;
    assert(mask_bits((8 * m) as u32) * 256 + 255 == mask_bits((8 * (m + 1)) as u32)) by (bit_vector)
        requires
            m < 4,
    ;
    assert((8 * m) as u32 == (8 * (n - 1)) as u32);
    assert((8 * (m + 1)) as u32 == (8 * n) as u32);
}

/// Loading a buffer that was stored from `v` gives back `v`.
pub proof fn lemma_load_of_store(v: u32, count: u32, order: ByteOrder)
    requires
        1 <= count <= 4,
        v <= mask_bits((8 * count) as u32),
    ensures
        buffer_value(value_bytes(v, count as nat, order), order) == v,
{
    reveal_with_fuel(buffer_value_be, 5);
    reveal_with_fuel(buffer_value_le, 5);
    lemma_mask_values();
    let s = value_bytes(v, count as nat, order);
    let b0 = value_byte(v, 0);
    let b1 = value_byte(v, 1);
    let b2 = value_byte(v, 2);
    let b3 = value_byte(v, 3);
    match order {
        ByteOrder::BigEndian => {
            if count == 1 {
                assert(s.drop_last() =~= Seq::<u8>::empty());
                assert(buffer_value_be(s) == b0);
                assert((v & 0xff) as u8 == v) by (bit_vector)
                    requires
                        v <= 0xff,
                ;
            } else if count == 2 {
                assert(s.drop_last() =~= seq![b1]);
                assert(s.drop_last().drop_last() =~= Seq::<u8>::empty());
                assert(buffer_value_be(s) == (b1 * 256 + b0) as nat);
                assert((((v >> 8) & 0xff) as u8) * 256 + ((v & 0xff) as u8) == v) by (bit_vector)
                    requires
                        v <= 0xffff,
                ;
            } else if count == 3 {
                assert(s.drop_last() =~= seq![b2, b1]);
                assert(s.drop_last().drop_last() =~= seq![b2]);
                assert(s.drop_last().drop_last().drop_last() =~= Seq::<u8>::empty());
                assert(buffer_value_be(s) == ((b2 * 256 + b1) * 256 + b0) as nat);
                assert(((((v >> 16) & 0xff) as u8) * 256 + (((v >> 8) & 0xff) as u8)) * 256 + ((v
                    & 0xff) as u8) == v) by (bit_vector)
                    requires
                        v <= 0xffffff,
                ;
            } else {
                assert(s.drop_last() =~= seq![b3, b2, b1]);
                assert(s.drop_last().drop_last() =~= seq![b3, b2]);
                assert(s.drop_last().drop_last().drop_last() =~= seq![b3]);
                assert(s.drop_last().drop_last().drop_last().drop_last() =~= Seq::<u8>::empty());
                assert(buffer_value_be(s) == (((b3 * 256 + b2) * 256 + b1) * 256 + b0) as nat);
                assert((((((v >> 24) & 0xff) as u8) * 256 + (((v >> 16) & 0xff) as u8)) * 256 + (((
                v >> 8) & 0xff) as u8)) * 256 + ((v & 0xff) as u8) == v) by (bit_vector);
            }
        },
        ByteOrder::LittleEndian => {
            if count == 1 {
                assert(s.skip(1) =~= Seq::<u8>::empty());
                assert(buffer_value_le(s) == b0);
                assert((v & 0xff) as u8 == v) by (bit_vector)
                    requires
                        v <= 0xff,
                ;
            } else if count == 2 {
                assert(s.skip(1) =~= seq![b1]);
                assert(s.skip(1).skip(1) =~= Seq::<u8>::empty());
                assert(buffer_value_le(s) == (b0 + b1 * 256) as nat);
                assert(((v & 0xff) as u8) + (((v >> 8) & 0xff) as u8) * 256 == v) by (bit_vector)
                    requires
                        v <= 0xffff,
                ;
            } else if count == 3 {
                assert(s.skip(1) =~= seq![b1, b2]);
                assert(s.skip(1).skip(1) =~= seq![b2]);
                assert(s.skip(1).skip(1).skip(1) =~= Seq::<u8>::empty());
                assert(buffer_value_le(s) == (b0 + (b1 + b2 * 256) * 256) as nat);
                assert(((v & 0xff) as u8) + ((((v >> 8) & 0xff) as u8) + (((v >> 16) & 0xff) as u8)
                    * 256) * 256 == v) by (bit_vector)
                    requires
                        v <= 0xffffff,
                ;
            } else {
                assert(s.skip(1) =~= seq![b1, b2, b3]);
                assert(s.skip(1).skip(1) =~= seq![b2, b3]);
                assert(s.skip(1).skip(1).skip(1) =~= seq![b3]);
                assert(s.skip(1).skip(1).skip(1).skip(1) =~= Seq::<u8>::empty());
                assert(buffer_value_le(s) == (b0 + (b1 + (b2 + b3 * 256) * 256) * 256) as nat);
                assert(((v & 0xff) as u8) + ((((v >> 8) & 0xff) as u8) + ((((v >> 16) & 0xff) as u8)
                    + (((v >> 24) & 0xff) as u8) * 256) * 256) * 256 == v) by (bit_vector);
            }
        },
    }
}

/// The masks of every field width the register map uses, as plain numbers.
pub proof fn lemma_mask_values()
    by (bit_vector)
    ensures
        mask_bits(1) == 0x1,
        mask_bits(2) == 0x3,
        mask_bits(3) == 0x7,
        mask_bits(4) == 0xf,
        mask_bits(5) == 0x1f,
        mask_bits(6) == 0x3f,
        mask_bits(7) == 0x7f,
        mask_bits(8) == 0xff,
        mask_bits(12) == 0xfff,
        mask_bits(16) == 0xffff,
        mask_bits(20) == 0xfffff,
        mask_bits(24) == 0xffffff,
        mask_bits(32) == 0xffffffff,
{
}

/// One declared variant of an enumeration field: either a specific bit
/// pattern, or the catch-all that matches every pattern no other variant
/// claims.
#[derive(Clone, Copy, PartialEq, Eq, Structural, Debug)]
pub enum VariantPattern {
    Exact(u32),
    CatchAll,
}

/// The ordered variant list of an enumeration field.
#[derive(Clone, PartialEq, Eq, Debug)]
pub struct EnumDef {
    pub variants: Vec<VariantPattern>,
}

/// Logical type of a field.
#[derive(Clone, PartialEq, Eq, Debug)]
pub enum FieldKind {
    Boolean,
    Unsigned,
    Signed,
    Enumeration(EnumDef),
}

/// One bit range within a register and its logical type.
#[derive(Clone, PartialEq, Eq, Debug)]
pub struct FieldDescriptor {
    /// Bit offset from the least significant bit of the logical register value.
    pub offset: u32,
    /// Width in bits; at least 1.
    pub width: u32,
    /// Logical type of the bits.
    pub kind: FieldKind,
}

/// A decoded field value. Enumeration values are the index of the decoded
/// variant in the field's declared variant list.
#[derive(Clone, Copy, PartialEq, Eq, Structural, Debug)]
pub enum FieldValue {
    Flag(bool),
    Unsigned(u32),
    Signed(i64),
    Variant(usize),
}

/// Decoding failed: the raw bits of an enumeration field match no declared
/// variant and the field declares no catch-all.
#[derive(Clone, Copy, PartialEq, Eq, Structural, Debug)]
pub enum DecodeError {
    UnmatchedPattern,
}

/// Whether `p` explicitly claims the bit pattern `raw`.
pub open spec fn is_exact_match(p: VariantPattern, raw: u32) -> bool {
    p matches VariantPattern::Exact(q) && q == raw
}

/// Index of the first element of `vs` satisfying `pred`, if any.
pub open spec fn first_index_where(
    vs: Seq<VariantPattern>,
    pred: spec_fn(VariantPattern) -> bool,
) -> Option<int>
    decreases vs.len(),
{
    if vs.len() == 0 {
        None
    } else if pred(vs[0]) {
        Some(0)
    } else {
        match first_index_where(vs.skip(1), pred) {
            Some(i) => Some(i + 1),
            None => None,
        }
    }
}

/// Index of the first variant that explicitly claims `raw`.
pub open spec fn first_exact_match(vs: Seq<VariantPattern>, raw: u32) -> Option<int> {
    first_index_where(vs, |p: VariantPattern| is_exact_match(p, raw))
}

/// Index of the first catch-all variant.
pub open spec fn first_catch_all(vs: Seq<VariantPattern>) -> Option<int> {
    first_index_where(vs, |p: VariantPattern| p is CatchAll)
}

/// What `first_index_where` returns: the least index satisfying `pred`, or
/// `None` when no index does.
pub proof fn lemma_first_index_where_props(
    vs: Seq<VariantPattern>,
    pred: spec_fn(VariantPattern) -> bool,
)
    ensures
        match first_index_where(vs, pred) {
            Some(i) => 0 <= i < vs.len() && pred(vs[i]) && (forall|j: int|
                0 <= j < i ==> !pred(vs[j])),
            None => forall|j: int| 0 <= j < vs.len() ==> !pred(vs[j]),
        },
    decreases vs.len(),
{
    if vs.len() == 0 {
    } else if pred(vs[0]) {
    } else {
        lemma_first_index_where_props(vs.skip(1), pred);
        match first_index_where(vs.skip(1), pred) {
            Some(i) => {
                assert(vs.skip(1)[i] == vs[i + 1]);
                assert forall|j: int| 0 <= j < i + 1 implies !pred(vs[j]) by {
                    if j > 0 {
                        assert(vs.skip(1)[j - 1] == vs[j]);
                    }
                }
            },
            None => {
                assert forall|j: int| 0 <= j < vs.len() implies !pred(vs[j]) by {
                    if j > 0 {
                        assert(vs.skip(1)[j - 1] == vs[j]);
                    }
                }
            },
        }
    }
}

/// An index that satisfies `pred`, with none satisfying it before, is what
/// `first_index_where` returns.
pub proof fn lemma_first_index_where_complete(
    vs: Seq<VariantPattern>,
    pred: spec_fn(VariantPattern) -> bool,
    i: int,
)
    requires
        0 <= i < vs.len(),
        pred(vs[i]),
        forall|j: int| 0 <= j < i ==> !pred(vs[j]),
    ensures
        first_index_where(vs, pred) == Some(i),
{
    lemma_first_index_where_props(vs, pred);
    match first_index_where(vs, pred) {
        Some(k) => {
            if k < i {
                assert(!pred(vs[k]));
            } else if k > i {
                assert(!pred(vs[i]));
            }
        },
        None => {
            assert(!pred(vs[i]));
        },
    }
}

/// Two's-complement reading of the low `width` bits of `raw`.
pub open spec fn sign_extend(raw: u32, width: u32) -> i64
    recommends
        1 <= width <= 32,
        raw <= mask_bits(width),
{
    if (raw >> ((width - 1) as u32)) & 1 == 1 {
        (raw as i64 - (1i64 << width)) as i64
    } else {
        raw as i64
    }
}

/// Decoding of the raw bits of a field, after extraction from the register.
pub open spec fn spec_decode_raw(kind: FieldKind, width: u32, raw: u32) -> Result<
    FieldValue,
    DecodeError,
> {
    match kind {
        FieldKind::Boolean => Ok(FieldValue::Flag(raw == 1)),
        FieldKind::Unsigned => Ok(FieldValue::Unsigned(raw)),
        FieldKind::Signed => Ok(FieldValue::Signed(sign_extend(raw, width))),
        FieldKind::Enumeration(e) => match first_exact_match(e.variants@, raw) {
            Some(i) => Ok(FieldValue::Variant(i as usize)),
            None => match first_catch_all(e.variants@) {
                Some(i) => Ok(FieldValue::Variant(i as usize)),
                None => Err(DecodeError::UnmatchedPattern),
            },
        },
    }
}

/// Decoding of a field out of the logical register value `reg`.
pub open spec fn spec_decode_field(f: FieldDescriptor, reg: u32) -> Result<
    FieldValue,
    DecodeError,
> {
    spec_decode_raw(f.kind, f.width, extract_bits(reg, f.offset, f.width))
}

/// Whether `v` is a value the field `f` can encode: the right logical type,
/// within the range of `f`'s width, and never the catch-all variant, which
/// has no bit pattern of its own.
pub open spec fn field_value_valid(f: FieldDescriptor, v: FieldValue) -> bool {
    match v {
        FieldValue::Flag(_) => f.kind is Boolean,
        FieldValue::Unsigned(u) => f.kind is Unsigned && u <= mask_bits(f.width),
        FieldValue::Signed(s) => f.kind is Signed && -(1i64 << ((f.width - 1) as u32)) <= s < (
        1i64 << ((f.width - 1) as u32)),
        FieldValue::Variant(i) => match f.kind {
            FieldKind::Enumeration(e) => i < e.variants@.len() && e.variants@[i as int] is Exact,
            _ => false,
        },
    }
}

/// The raw bits that encode `v` in field `f`.
pub open spec fn raw_of_value(f: FieldDescriptor, v: FieldValue) -> u32
    recommends
        field_value_valid(f, v),
{
    match v {
        FieldValue::Flag(b) => if b {
            1u32
        } else {
            0u32
        },
        FieldValue::Unsigned(u) => u,
        FieldValue::Signed(s) => if s < 0 {
            (s + (1i64 << f.width)) as u32
        } else {
            s as u32
        },
        FieldValue::Variant(i) => match f.kind {
            FieldKind::Enumeration(e) => match e.variants@[i as int] {
                VariantPattern::Exact(p) => p,
                VariantPattern::CatchAll => 0,
            },
            _ => 0,
        },
    }
}

/// Encoding of `v` into field `f` of the logical register value `reg`: only
/// the bits of `f` change.
pub open spec fn spec_encode_field(f: FieldDescriptor, v: FieldValue, reg: u32) -> u32 {
    insert_bits(reg, f.offset, f.width, raw_of_value(f, v))
}

/// Well-formedness of an enumeration declaration for a field of the given
/// width: every explicit pattern fits the width, and no two explicit
/// variants claim the same pattern.
pub open spec fn enum_wf(e: EnumDef, width: u32) -> bool {
    &&& forall|i: int|
        0 <= i < e.variants@.len() ==> (match #[trigger] e.variants@[i] {
            VariantPattern::Exact(p) => p <= mask_bits(width),
            VariantPattern::CatchAll => true,
        })
    &&& forall|i: int, j: int|
        0 <= i < j < e.variants@.len() ==> !(#[trigger] e.variants@[i] matches
        VariantPattern::Exact(p) && #[trigger] e.variants@[j] matches VariantPattern::Exact(q) && p
            == q)
}

/// Well-formedness of a field within a register of `size_bits` bits.
pub open spec fn field_wf(f: FieldDescriptor, size_bits: u32) -> bool {
    &&& 1 <= f.width
    &&& f.offset + f.width <= size_bits
    &&& size_bits <= 32
    &&& match f.kind {
        FieldKind::Boolean => f.width == 1,
        FieldKind::Enumeration(e) => enum_wf(e, f.width),
        _ => true,
    }
}

/// Two fields that share no bit.
pub open spec fn fields_disjoint(f: FieldDescriptor, g: FieldDescriptor) -> bool {
    f.offset + f.width <= g.offset || g.offset + g.width <= f.offset
}

/// A valid value encodes to raw bits that fit the field's width.
pub proof fn lemma_raw_of_value_in_range(f: FieldDescriptor, v: FieldValue)
    requires
        field_wf(f, 32),
        field_value_valid(f, v),
    ensures
        raw_of_value(f, v) <= mask_bits(f.width),
{
    let w = f.width;
    match v {
        FieldValue::Flag(b) => {
            assert(1u32 <= mask_bits(w)) by (bit_vector)
                requires
                    1 <= w <= 32,
            ;
        },
        FieldValue::Unsigned(u) => {},
        FieldValue::Signed(s) => {
            if s < 0 {
                assert((s + (1i64 << w)) as u32 <= mask_bits(w)) by (bit_vector)
                    requires
                        1 <= w <= 32,
                        -(1i64 << ((w - 1) as u32)) <= s < 0,
                ;
            } else {
                assert(s as u32 <= mask_bits(w)) by (bit_vector)
                    requires
                        1 <= w <= 32,
                        0 <= s < (1i64 << ((w - 1) as u32)),
                ;
            }
        },
        FieldValue::Variant(i) => {},
    }
}

/// Decode field `f` out of the logical register value `reg`.
pub fn decode_field(f: &FieldDescriptor, reg: u32) -> (r: Result<FieldValue, DecodeError>)
    requires
        field_wf(*f, 32),
    ensures
        r == spec_decode_field(*f, reg),
{
    let raw = extract_bits_exec(reg, f.offset, f.width);
    match &f.kind {
        FieldKind::Boolean => Ok(FieldValue::Flag(raw == 1)),
        FieldKind::Unsigned => Ok(FieldValue::Unsigned(raw)),
        FieldKind::Signed => Ok(FieldValue::Signed(sign_extend_exec(raw, f.width))),
        FieldKind::Enumeration(e) => decode_enum(e, f.width, raw),
    }
}

/// Two's-complement reading of the low `width` bits of `raw`.
pub fn sign_extend_exec(raw: u32, width: u32) -> (r: i64)
    requires
        1 <= width <= 32,
    ensures
        r == sign_extend(raw, width),
{
    proof {
        assert(0 < (1i64 << width) <= 0x1_0000_0000i64) by (bit_vector)
            requires
                1 <= width <= 32,
        ;
    }
    if (raw >> (width - 1)) & 1 == 1 {
        raw as i64 - (1i64 << width)
    } else {
        raw as i64
    }
}

/// Match `raw` against the variant list of `e`: the first explicit match
/// wins; otherwise the first catch-all; otherwise the pattern is unmatched.
fn decode_enum(e: &EnumDef, width: u32, raw: u32) -> (r: Result<FieldValue, DecodeError>)
    ensures
        r == spec_decode_raw(FieldKind::Enumeration(*e), width, raw),
{
    let ghost vs = e.variants@;
    let ghost exact_pred = |p: VariantPattern| is_exact_match(p, raw);
    let ghost ca_pred = |p: VariantPattern| p is CatchAll;
    let n = e.variants.len();
    let mut catch_all: Option<usize> = None;
    let mut i: usize = 0;
    while i < n
        invariant
            i <= n,
            n == vs.len(),
            vs == e.variants@,
            forall|j: int| 0 <= j < i ==> !exact_pred(vs[j]),
            match catch_all {
                Some(k) => k < i && ca_pred(vs[k as int]) && (forall|j: int|
                    0 <= j < k ==> !ca_pred(vs[j])),
                None => forall|j: int| 0 <= j < i ==> !ca_pred(vs[j]),
            },
            exact_pred == (|p: VariantPattern| is_exact_match(p, raw)),
            ca_pred == (|p: VariantPattern| p is CatchAll),
        decreases n - i,
    {
        match e.variants[i] {
            VariantPattern::Exact(p) => {
                if p == raw {
                    proof {
                        assert(exact_pred(vs[i as int]));
                        lemma_first_index_where_complete(vs, exact_pred, i as int);
                    }
                    return Ok(FieldValue::Variant(i));
                }
            },
            VariantPattern::CatchAll => {
                if catch_all.is_none() {
                    catch_all = Some(i);
                }
            },
        }
        i = i + 1;
    }
    proof {
        lemma_first_index_where_props(vs, exact_pred);
        if let Some(k) = first_index_where(vs, exact_pred) {
            assert(!exact_pred(vs[k]));
        }
        match catch_all {
            Some(k) => {
                lemma_first_index_where_complete(vs, ca_pred, k as int);
            },
            None => {
                lemma_first_index_where_props(vs, ca_pred);
                if let Some(k) = first_index_where(vs, ca_pred) {
                    assert(!ca_pred(vs[k]));
                }
            },
        }
    }
    match catch_all {
        Some(k) => Ok(FieldValue::Variant(k)),
        None => Err(DecodeError::UnmatchedPattern),
    }
}

/// Encode `v` into field `f` of the logical register value `reg`, keeping
/// every bit outside `f`.
pub fn encode_field(f: &FieldDescriptor, v: &FieldValue, reg: u32) -> (r: u32)
    requires
        field_wf(*f, 32),
        field_value_valid(*f, *v),
    ensures
        r == spec_encode_field(*f, *v, reg),
{
    proof {
        lemma_raw_of_value_in_range(*f, *v);
    }
    let raw: u32 = match v {
        FieldValue::Flag(b) => if *b {
            1
        } else {
            0
        },
        FieldValue::Unsigned(u) => *u,
        FieldValue::Signed(s) => {
            proof {
                let w = f.width;
                let sv = *s;
                assert(sv < 0 ==> 0 <= sv + (1i64 << w) < 0x1_0000_0000i64) by (bit_vector)
                    requires
                        1 <= w <= 32,
                        -(1i64 << ((w - 1) as u32)) <= sv,
                ;
            }
            if *s < 0 {
                (*s + (1i64 << f.width)) as u32
            } else {
                *s as u32
            }
        },
        FieldValue::Variant(i) => match &f.kind {
            FieldKind::Enumeration(e) => match e.variants[*i] {
                VariantPattern::Exact(p) => p,
                VariantPattern::CatchAll => {
                    proof {
                        assert(false);
                    }
                    0
                },
            },
            _ => {
                proof {
                    assert(false);
                }
                0
            },
        },
    };
    insert_bits_exec(reg, f.offset, f.width, raw)
}

/// Round trip: decoding a field out of the register it was just encoded
/// into returns the encoded value, whatever the rest of the register holds.
pub proof fn lemma_field_round_trip(f: FieldDescriptor, v: FieldValue, reg: u32)
    requires
        field_wf(f, 32),
        field_value_valid(f, v),
    ensures
        spec_decode_field(f, spec_encode_field(f, v, reg)) == Ok::<FieldValue, DecodeError>(v),
{
    lemma_raw_of_value_in_range(f, v);
    let raw = raw_of_value(f, v);
    let w = f.width;
    lemma_extract_of_insert(reg, f.offset, w, raw);
    match v {
        FieldValue::Flag(b) => {
            assert(w == 1);
            assert(mask_bits(1) == 1) by (bit_vector);
        },
        FieldValue::Unsigned(u) => {},
        FieldValue::Signed(s) => {
            if s < 0 {
                assert(sign_extend((s + (1i64 << w)) as u32, w) == s) by (bit_vector)
                    requires
                        1 <= w <= 32,
                        -(1i64 << ((w - 1) as u32)) <= s < 0,
                ;
            } else {
                assert(sign_extend(s as u32, w) == s) by (bit_vector)
                    requires
                        1 <= w <= 32,
                        0 <= s < (1i64 << ((w - 1) as u32)),
                ;
            }
        },
        FieldValue::Variant(i) => {
            let e = f.kind->Enumeration_0;
            let vs = e.variants@;
            let p = vs[i as int]->Exact_0;
            assert forall|j: int| 0 <= j < i implies !is_exact_match(vs[j], p) by {
                assert(vs[i as int] matches VariantPattern::Exact(q) && q == p);
            }
            assert(is_exact_match(vs[i as int], p));
            lemma_first_index_where_complete(
                vs,
                |q: VariantPattern| is_exact_match(q, p),
                i as int,
            );
        },
    }
}

/// The two's-complement boundary: the most negative value a signed field of
/// width `w` can hold survives the round trip through the codec.
pub proof fn lemma_signed_min_round_trip(f: FieldDescriptor, reg: u32)
    requires
        field_wf(f, 32),
        f.kind is Signed,
    ensures
        spec_decode_field(
            f,
            spec_encode_field(
                f,
                FieldValue::Signed((-(1i64 << ((f.width - 1) as u32))) as i64),
                reg,
            ),
        ) == Ok::<FieldValue, DecodeError>(
            FieldValue::Signed((-(1i64 << ((f.width - 1) as u32))) as i64),
        ),
{
    let w = f.width;
    assert(0 < (1i64 << ((w - 1) as u32)) <= 0x8000_0000i64) by (bit_vector)
        requires
            1 <= w <= 32,
    ;
    let min: i64 = (-(1i64 << ((w - 1) as u32))) as i64;
    assert(field_value_valid(f, FieldValue::Signed(min)));
    lemma_field_round_trip(f, FieldValue::Signed(min), reg);
}

/// A raw pattern that no explicit variant claims decodes to the first
/// catch-all variant when one is declared, and to a decode error otherwise.
pub proof fn lemma_unmatched_pattern_decode(e: EnumDef, width: u32, raw: u32)
    requires
        forall|j: int| 0 <= j < e.variants@.len() ==> !is_exact_match(#[trigger] e.variants@[j], raw),
    ensures
        match first_catch_all(e.variants@) {
            Some(c) => spec_decode_raw(FieldKind::Enumeration(e), width, raw) == Ok::<
                FieldValue,
                DecodeError,
            >(FieldValue::Variant(c as usize)),
            None => spec_decode_raw(FieldKind::Enumeration(e), width, raw) == Err::<
                FieldValue,
                DecodeError,
            >(DecodeError::UnmatchedPattern),
        },
{
    let pred = |p: VariantPattern| is_exact_match(p, raw);
    lemma_first_index_where_props(e.variants@, pred);
    if let Some(k) = first_index_where(e.variants@, pred) {
        assert(pred(e.variants@[k]));
        assert(!is_exact_match(e.variants@[k], raw));
    }
}

/// Encoding one field leaves the decoding of every disjoint field exactly as
/// it was: a read-modify-write of one field cannot disturb its neighbours.
pub proof fn lemma_encode_preserves_disjoint_field(
    f: FieldDescriptor,
    g: FieldDescriptor,
    v: FieldValue,
    reg: u32,
)
    requires
        field_wf(f, 32),
        field_wf(g, 32),
        field_value_valid(f, v),
        fields_disjoint(f, g),
    ensures
        spec_decode_field(g, spec_encode_field(f, v, reg)) == spec_decode_field(g, reg),
{
    lemma_raw_of_value_in_range(f, v);
    lemma_insert_preserves_disjoint(
        reg,
        f.offset,
        f.width,
        raw_of_value(f, v),
        g.offset,
        g.width,
    );
}

/// The register value obtained by encoding each of `values` into its field,
/// in order, starting from `acc`.
pub open spec fn spec_pack_fields(
    fields: Seq<FieldDescriptor>,
    values: Seq<FieldValue>,
    acc: u32,
) -> u32
    recommends
        fields.len() == values.len(),
    decreases fields.len(),
{
    if fields.len() == 0 {
        acc
    } else {
        spec_pack_fields(
            fields.skip(1),
            values.skip(1),
            spec_encode_field(fields[0], values[0], acc),
        )
    }
}

/// Pack one value per field into a freshly zeroed register value: the
/// whole-register write, which sets every field at once.
pub fn pack_fields(fields: &Vec<FieldDescriptor>, values: &Vec<FieldValue>) -> (r: u32)
    requires
        fields@.len() == values@.len(),
        forall|i: int|
            0 <= i < fields@.len() ==> field_wf(#[trigger] fields@[i], 32) && field_value_valid(
                fields@[i],
                values@[i],
            ),
    ensures
        r == spec_pack_fields(fields@, values@, 0),
{
    let mut r: u32 = 0;
    let mut i: usize = 0;
    proof {
        assert(fields@.skip(0) =~= fields@);
        assert(values@.skip(0) =~= values@);
    }
    while i < fields.len()
        invariant
            i <= fields@.len(),
            fields@.len() == values@.len(),
            forall|j: int|
                0 <= j < fields@.len() ==> field_wf(#[trigger] fields@[j], 32)
                    && field_value_valid(fields@[j], values@[j]),
            spec_pack_fields(fields@, values@, 0) == spec_pack_fields(
                fields@.skip(i as int),
                values@.skip(i as int),
                r,
            ),
        decreases fields@.len() - i,
    {
        let enc = encode_field(&fields[i], &values[i], r);
        proof {
            assert(fields@.skip(i as int).skip(1) =~= fields@.skip(i as int + 1));
            assert(values@.skip(i as int).skip(1) =~= values@.skip(i as int + 1));
            assert(fields@.skip(i as int)[0] == fields@[i as int]);
            assert(values@.skip(i as int)[0] == values@[i as int]);
            assert(spec_pack_fields(fields@.skip(i as int), values@.skip(i as int), r)
                == spec_pack_fields(fields@.skip(i as int + 1), values@.skip(i as int + 1), enc));
        }
        r = enc;
        i = i + 1;
    }
    proof {
        assert(fields@.skip(fields@.len() as int) =~= Seq::<FieldDescriptor>::empty());
        assert(values@.skip(values@.len() as int) =~= Seq::<FieldValue>::empty());
    }
    r
}

/// Packing fields that lie within `size_bits` bits into a value that fits
/// `size_bits` bits gives a value that still fits.
pub proof fn lemma_pack_fields_in_width(
    fields: Seq<FieldDescriptor>,
    values: Seq<FieldValue>,
    acc: u32,
    size_bits: u32,
)
    requires
        fields.len() == values.len(),
        size_bits <= 32,
        acc <= mask_bits(size_bits),
        forall|i: int|
            0 <= i < fields.len() ==> field_wf(#[trigger] fields[i], size_bits)
                && field_value_valid(fields[i], values[i]),
    ensures
        spec_pack_fields(fields, values, acc) <= mask_bits(size_bits),
    decreases fields.len(),
{
    if fields.len() == 0 {
    } else {
        lemma_raw_of_value_in_range(fields[0], values[0]);
        lemma_insert_bits_in_width(
            acc,
            fields[0].offset,
            fields[0].width,
            raw_of_value(fields[0], values[0]),
            size_bits,
        );
        let acc2 = spec_encode_field(fields[0], values[0], acc);
        assert forall|i: int| 0 <= i < fields.skip(1).len() implies field_wf(
            #[trigger] fields.skip(1)[i],
            size_bits,
        ) && field_value_valid(fields.skip(1)[i], values.skip(1)[i]) by {
            assert(fields.skip(1)[i] == fields[i + 1]);
            assert(values.skip(1)[i] == values[i + 1]);
        }
        lemma_pack_fields_in_width(fields.skip(1), values.skip(1), acc2, size_bits);
    }
}

/// The full codec round trip over a register buffer: encode a field into
/// the register value a buffer holds, store the value as bytes under the
/// register's byte order, load those bytes again, and the field decodes to
/// exactly the value that was encoded.
pub proof fn lemma_buffer_field_round_trip(
    f: FieldDescriptor,
    v: FieldValue,
    reg: u32,
    count: u32,
    order: ByteOrder,
)
    requires
        field_wf(f, (8 * count) as u32),
        field_value_valid(f, v),
        1 <= count <= 4,
        reg <= mask_bits((8 * count) as u32),
    ensures
        spec_decode_raw(
            f.kind,
            f.width,
            extract_bits(
                buffer_value(
                    value_bytes(spec_encode_field(f, v, reg), count as nat, order),
                    order,
                ) as u32,
                f.offset,
                f.width,
            ),
        ) == Ok::<FieldValue, DecodeError>(v),
{
    let encoded = spec_encode_field(f, v, reg);
    lemma_raw_of_value_in_range(f, v);
    lemma_insert_bits_in_width(reg, f.offset, f.width, raw_of_value(f, v), (8 * count) as u32);
    lemma_load_of_store(encoded, count, order);
    lemma_field_round_trip(f, v, reg);
}

/// Every decoded value can be encoded again, with one exception: a decoded
/// catch-all variant, which stands for every unclaimed pattern and so has no
/// single pattern of its own.
pub proof fn lemma_decoded_value_valid(f: FieldDescriptor, reg: u32)
    requires
        field_wf(f, 32),
    ensures
        match spec_decode_field(f, reg) {
            Ok(v) => match v {
                FieldValue::Variant(i) => {
                    &&& f.kind matches FieldKind::Enumeration(e)
                    &&& i < e.variants@.len()
                    &&& (e.variants@[i as int] is Exact ==> field_value_valid(f, v))
                },
                _ => field_value_valid(f, v),
            },
            Err(_) => true,
        },
{
    let raw = extract_bits(reg, f.offset, f.width);
    let w = f.width;
    lemma_extract_bits_in_range(reg, f.offset, w);
    match f.kind {
        FieldKind::Boolean => {},
        FieldKind::Unsigned => {},
        FieldKind::Signed => {
            assert(raw <= mask_bits(w) ==> -(1i64 << ((w - 1) as u32)) <= sign_extend(raw, w) < (
            1i64 << ((w - 1) as u32))) by (bit_vector)
                requires
                    1 <= w <= 32,
            ;
        },
        FieldKind::Enumeration(e) => {
            lemma_first_index_where_props(e.variants@, |p: VariantPattern| is_exact_match(p, raw));
            lemma_first_index_where_props(e.variants@, |p: VariantPattern| p is CatchAll);
        },
    }
}

/// Decode field `f` out of a register buffer: reassemble the logical value
/// under the register's byte order, then extract and interpret the field's
/// bits.
pub fn decode_field_from_buffer(
    f: &FieldDescriptor,
    bytes: &Vec<u8>,
    order: ByteOrder,
) -> (r: Result<FieldValue, DecodeError>)
    requires
        1 <= bytes@.len() <= 4,
        field_wf(*f, (8 * bytes@.len()) as u32),
    ensures
        r == spec_decode_field(*f, buffer_value(bytes@, order) as u32),
{
    proof {
        lemma_buffer_value_bound(bytes@, order);
    }
    let reg = load_buffer(bytes, order);
    decode_field(f, reg)
}

/// Encode `v` into field `f` of a register buffer, merging: every bit
/// outside `f` keeps the value the buffer held.
pub fn encode_field_into_buffer(
    f: &FieldDescriptor,
    v: &FieldValue,
    bytes: &Vec<u8>,
    order: ByteOrder,
) -> (r: Vec<u8>)
    requires
        1 <= bytes@.len() <= 4,
        field_wf(*f, (8 * bytes@.len()) as u32),
        field_value_valid(*f, *v),
    ensures
        r@ == value_bytes(
            spec_encode_field(*f, *v, buffer_value(bytes@, order) as u32),
            bytes@.len(),
            order,
        ),
{
    proof {
        lemma_buffer_value_bound(bytes@, order);
    }
    let reg = load_buffer(bytes, order);
    let enc = encode_field(f, v, reg);
    proof {
        lemma_raw_of_value_in_range(*f, *v);
        lemma_insert_bits_in_width(
            reg,
            f.offset,
            f.width,
            raw_of_value(*f, *v),
            (8 * bytes@.len()) as u32,
        );
    }
    store_buffer(enc, bytes.len(), order)
}

} // verus!
