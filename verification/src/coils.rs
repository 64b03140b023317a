//! Coil values on the wire: the 16-bit single-coil word and bit-packed coil arrays.

use vstd::prelude::*;

verus! {

/// The bit that the boolean contributes at position 0 of a byte.
pub open spec fn bit_of(b: bool) -> u8 {
    if b { 1u8 } else { 0u8 }
}

/// The byte whose bit `k` is `bk`, least significant bit first.
pub open spec fn byte_of_bits(
    b0: bool,
    b1: bool,
    b2: bool,
    b3: bool,
    b4: bool,
    b5: bool,
    b6: bool,
    b7: bool,
) -> u8 {
    bit_of(b0) | (bit_of(b1) << 1u8) | (bit_of(b2) << 2u8) | (bit_of(b3) << 3u8) | (bit_of(b4)
        << 4u8) | (bit_of(b5) << 5u8) | (bit_of(b6) << 6u8) | (bit_of(b7) << 7u8)
}

/// Coil `i` of the sequence, or `false` past its end.
pub open spec fn coil_at(coils: Seq<bool>, i: int) -> bool {
    if 0 <= i < coils.len() { coils[i] } else { false }
}

/// Byte `j` of the packed form: coils `8j .. 8j+7`, padded with zero bits.
pub open spec fn packed_byte(coils: Seq<bool>, j: int) -> u8 {
    byte_of_bits(
        coil_at(coils, 8 * j),
        coil_at(coils, 8 * j + 1),
        coil_at(coils, 8 * j + 2),
        coil_at(coils, 8 * j + 3),
        coil_at(coils, 8 * j + 4),
        coil_at(coils, 8 * j + 5),
        coil_at(coils, 8 * j + 6),
        coil_at(coils, 8 * j + 7),
    )
}

/// Number of bytes that `n` coils occupy.
pub open spec fn packed_len(n: nat) -> nat {
    ((n + 7) / 8) as nat
}

/// The packed form of a coil sequence: coil `i` is bit `i % 8` of byte `i / 8`.
pub open spec fn spec_pack_coils(coils: Seq<bool>) -> Seq<u8> {
    Seq::new(packed_len(coils.len()), |j: int| packed_byte(coils, j))
}

/// Bit `k` of a byte, as a boolean.
pub open spec fn bit_set(byte: u8, k: int) -> bool {
    (byte >> (k as u8)) & 1u8 > 0
}

/// The first `count` coils held in the packed bytes.
pub open spec fn spec_unpack_coils(bytes: Seq<u8>, count: nat) -> Seq<bool> {
    Seq::new(count, |i: int| bit_set(bytes[i / 8], i % 8))
}

/// The wire word of a single coil.
pub open spec fn spec_bool_to_coil(state: bool) -> u16 {
    if state { 0xFF00u16 } else { 0x0000u16 }
}

/// Whether a wire word stands for a coil that is on: any bit of its high byte is set.
pub open spec fn spec_coil_to_bool(coil: u16) -> bool {
    coil >= 0x0100
}

pub fn bool_to_coil(state: bool) -> (coil: u16)
    ensures
        coil == spec_bool_to_coil(state),
{
    if state {
        0xFF00
    } else {
        0x0000
    }
}

pub fn coil_to_bool(coil: u16) -> (state: bool)
    ensures
        state == spec_coil_to_bool(coil),
{
    assert((coil & 0xFF00u16 > 0) == (coil >= 0x0100u16)) by (bit_vector);
    coil & 0xFF00 > 0
}

/// Setting bit `k` of a byte whose bit `k` was clear gives the byte with that bit.
proof fn lemma_set_bit(
    b: bool,
    k: int,
    b0: bool,
    b1: bool,
    b2: bool,
    b3: bool,
    b4: bool,
    b5: bool,
    b6: bool,
    b7: bool,
)
    requires
        0 <= k < 8,
    ensures
        k == 0 ==> byte_of_bits(false, b1, b2, b3, b4, b5, b6, b7) | (bit_of(b) << 0u8)
            == byte_of_bits(b, b1, b2, b3, b4, b5, b6, b7),
        k == 1 ==> byte_of_bits(b0, false, b2, b3, b4, b5, b6, b7) | (bit_of(b) << 1u8)
            == byte_of_bits(b0, b, b2, b3, b4, b5, b6, b7),
        k == 2 ==> byte_of_bits(b0, b1, false, b3, b4, b5, b6, b7) | (bit_of(b) << 2u8)
            == byte_of_bits(b0, b1, b, b3, b4, b5, b6, b7),
        k == 3 ==> byte_of_bits(b0, b1, b2, false, b4, b5, b6, b7) | (bit_of(b) << 3u8)
            == byte_of_bits(b0, b1, b2, b, b4, b5, b6, b7),
        k == 4 ==> byte_of_bits(b0, b1, b2, b3, false, b5, b6, b7) | (bit_of(b) << 4u8)
            == byte_of_bits(b0, b1, b2, b3, b, b5, b6, b7),
        k == 5 ==> byte_of_bits(b0, b1, b2, b3, b4, false, b6, b7) | (bit_of(b) << 5u8)
            == byte_of_bits(b0, b1, b2, b3, b4, b, b6, b7),
        k == 6 ==> byte_of_bits(b0, b1, b2, b3, b4, b5, false, b7) | (bit_of(b) << 6u8)
            == byte_of_bits(b0, b1, b2, b3, b4, b5, b, b7),
        k == 7 ==> byte_of_bits(b0, b1, b2, b3, b4, b5, b6, false) | (bit_of(b) << 7u8)
            == byte_of_bits(b0, b1, b2, b3, b4, b5, b6, b),
{
    let x: u8 = bit_of(b);
    let x0: u8 = bit_of(b0);
    let x1: u8 = bit_of(b1);
    let x2: u8 = bit_of(b2);
    let x3: u8 = bit_of(b3);
    let x4: u8 = bit_of(b4);
    let x5: u8 = bit_of(b5);
    let x6: u8 = bit_of(b6);
    let x7: u8 = bit_of(b7);
    assert((0u8 | (x1 << 1u8) | (x2 << 2u8) | (x3 << 3u8) | (x4 << 4u8) | (x5 << 5u8) | (x6 << 6u8)
        | (x7 << 7u8)) | (x << 0u8) == (x | (x1 << 1u8) | (x2 << 2u8) | (x3 << 3u8) | (x4 << 4u8)
        | (x5 << 5u8) | (x6 << 6u8) | (x7 << 7u8))) by (bit_vector);
    assert((x0 | (0u8 << 1u8) | (x2 << 2u8) | (x3 << 3u8) | (x4 << 4u8) | (x5 << 5u8) | (x6 << 6u8)
        | (x7 << 7u8)) | (x << 1u8) == (x0 | (x << 1u8) | (x2 << 2u8) | (x3 << 3u8) | (x4 << 4u8)
        | (x5 << 5u8) | (x6 << 6u8) | (x7 << 7u8))) by (bit_vector);
    assert((x0 | (x1 << 1u8) | (0u8 << 2u8) | (x3 << 3u8) | (x4 << 4u8) | (x5 << 5u8) | (x6 << 6u8)
        | (x7 << 7u8)) | (x << 2u8) == (x0 | (x1 << 1u8) | (x << 2u8) | (x3 << 3u8) | (x4 << 4u8)
        | (x5 << 5u8) | (x6 << 6u8) | (x7 << 7u8))) by (bit_vector);
    assert((x0 | (x1 << 1u8) | (x2 << 2u8) | (0u8 << 3u8) | (x4 << 4u8) | (x5 << 5u8) | (x6 << 6u8)
        | (x7 << 7u8)) | (x << 3u8) == (x0 | (x1 << 1u8) | (x2 << 2u8) | (x << 3u8) | (x4 << 4u8)
        | (x5 << 5u8) | (x6 << 6u8) | (x7 << 7u8))) by (bit_vector);
    assert((x0 | (x1 << 1u8) | (x2 << 2u8) | (x3 << 3u8) | (0u8 << 4u8) | (x5 << 5u8) | (x6 << 6u8)
        | (x7 << 7u8)) | (x << 4u8) == (x0 | (x1 << 1u8) | (x2 << 2u8) | (x3 << 3u8) | (x << 4u8)
        | (x5 << 5u8) | (x6 << 6u8) | (x7 << 7u8))) by (bit_vector);
    assert((x0 | (x1 << 1u8) | (x2 << 2u8) | (x3 << 3u8) | (x4 << 4u8) | (0u8 << 5u8) | (x6 << 6u8)
        | (x7 << 7u8)) | (x << 5u8) == (x0 | (x1 << 1u8) | (x2 << 2u8) | (x3 << 3u8) | (x4 << 4u8)
        | (x << 5u8) | (x6 << 6u8) | (x7 << 7u8))) by (bit_vector);
    assert((x0 | (x1 << 1u8) | (x2 << 2u8) | (x3 << 3u8) | (x4 << 4u8) | (x5 << 5u8) | (0u8 << 6u8)
        | (x7 << 7u8)) | (x << 6u8) == (x0 | (x1 << 1u8) | (x2 << 2u8) | (x3 << 3u8) | (x4 << 4u8)
        | (x5 << 5u8) | (x << 6u8) | (x7 << 7u8))) by (bit_vector);
    assert((x0 | (x1 << 1u8) | (x2 << 2u8) | (x3 << 3u8) | (x4 << 4u8) | (x5 << 5u8) | (x6 << 6u8)
        | (0u8 << 7u8)) | (x << 7u8) == (x0 | (x1 << 1u8) | (x2 << 2u8) | (x3 << 3u8) | (x4 << 4u8)
        | (x5 << 5u8) | (x6 << 6u8) | (x << 7u8))) by (bit_vector);
}

/// Bit `k` of the byte built from eight bits is the `k`-th of them.
proof fn lemma_get_bit(
    k: int,
    b0: bool,
    b1: bool,
    b2: bool,
    b3: bool,
    b4: bool,
    b5: bool,
    b6: bool,
    b7: bool,
)
    requires
        0 <= k < 8,
    ensures
        bit_set(byte_of_bits(b0, b1, b2, b3, b4, b5, b6, b7), k) == (if k == 0 {
            b0
        } else if k == 1 {
            b1
        } else if k == 2 {
            b2
        } else if k == 3 {
            b3
        } else if k == 4 {
            b4
        } else if k == 5 {
            b5
        } else if k == 6 {
            b6
        } else {
            b7
        }),
{
    let x0: u8 = bit_of(b0);
    let x1: u8 = bit_of(b1);
    let x2: u8 = bit_of(b2);
    let x3: u8 = bit_of(b3);
    let x4: u8 = bit_of(b4);
    let x5: u8 = bit_of(b5);
    let x6: u8 = bit_of(b6);
    let x7: u8 = bit_of(b7);
    let y: u8 = x0 | (x1 << 1u8) | (x2 << 2u8) | (x3 << 3u8) | (x4 << 4u8) | (x5 << 5u8) | (x6
        << 6u8) | (x7 << 7u8);
    assert(x0 <= 1 && x1 <= 1 && x2 <= 1 && x3 <= 1 && x4 <= 1 && x5 <= 1 && x6 <= 1 && x7 <= 1
        && y == x0 | (x1 << 1u8) | (x2 << 2u8) | (x3 << 3u8) | (x4 << 4u8) | (x5 << 5u8) | (x6
        << 6u8) | (x7 << 7u8) ==> ((y >> 0u8) & 1u8 > 0) == (x0 == 1) && ((y >> 1u8) & 1u8 > 0)
        == (x1 == 1) && ((y >> 2u8) & 1u8 > 0) == (x2 == 1) && ((y >> 3u8) & 1u8 > 0) == (x3
        == 1) && ((y >> 4u8) & 1u8 > 0) == (x4 == 1) && ((y >> 5u8) & 1u8 > 0) == (x5 == 1) && ((y
        >> 6u8) & 1u8 > 0) == (x6 == 1) && ((y >> 7u8) & 1u8 > 0) == (x7 == 1)) by (bit_vector);
}

/// Packing followed by unpacking the same number of coils gives the coils back.
pub proof fn lemma_unpack_pack(coils: Seq<bool>)
    ensures
        spec_unpack_coils(spec_pack_coils(coils), coils.len()) == coils,
{
    let packed = spec_pack_coils(coils);
    let back = spec_unpack_coils(packed, coils.len());
    assert forall|i: int| 0 <= i < coils.len() implies back[i] == coils[i] by {
        let j = i / 8;
        let k = i % 8;
        assert(0 <= j < packed_len(coils.len()));
        lemma_get_bit(
            k,
            coil_at(coils, 8 * j),
            coil_at(coils, 8 * j + 1),
            coil_at(coils, 8 * j + 2),
            coil_at(coils, 8 * j + 3),
            coil_at(coils, 8 * j + 4),
            coil_at(coils, 8 * j + 5),
            coil_at(coils, 8 * j + 6),
            coil_at(coils, 8 * j + 7),
        );
        assert(packed[j] == packed_byte(coils, j));
        assert(i == 8 * j + k);
    }
    assert(back =~= coils);
}

/// Adding one coil changes only the bit that the coil occupies.
proof fn lemma_pack_step(coils: Seq<bool>, i: int)
    requires
        0 <= i < coils.len(),
    ensures
        packed_byte(coils.take(i + 1), i / 8) == packed_byte(coils.take(i), i / 8) | (bit_of(
            coils[i],
        ) << ((i % 8) as u8)),
        forall|j: int| j != i / 8 ==> packed_byte(coils.take(i + 1), j) == packed_byte(
            coils.take(i),
            j,
        ),
{
    let before = coils.take(i);
    let after = coils.take(i + 1);
    assert forall|m: int| m != i implies coil_at(after, m) == coil_at(before, m) by {}
    assert(coil_at(after, i) == coils[i]);
    assert(coil_at(before, i) == false);
    let j = i / 8;
    let k = i % 8;
    assert(i == 8 * j + k);
    lemma_set_bit(
        coils[i],
        k,
        coil_at(after, 8 * j),
        coil_at(after, 8 * j + 1),
        coil_at(after, 8 * j + 2),
        coil_at(after, 8 * j + 3),
        coil_at(after, 8 * j + 4),
        coil_at(after, 8 * j + 5),
        coil_at(after, 8 * j + 6),
        coil_at(after, 8 * j + 7),
    );
    assert forall|j2: int| j2 != i / 8 implies packed_byte(after, j2) == packed_byte(
        before,
        j2,
    ) by {
        assert(8 * j2 != i && 8 * j2 + 1 != i && 8 * j2 + 2 != i && 8 * j2 + 3 != i && 8 * j2 + 4
            != i && 8 * j2 + 5 != i && 8 * j2 + 6 != i && 8 * j2 + 7 != i);
    }
}

/// Packs coils into bytes, eight to a byte, the first coil in the lowest bit.
pub fn pack_coils(coils: &[bool]) -> (packed: Vec<u8>)
    ensures
        packed@ == spec_pack_coils(coils@),
{
    let n: usize = coils.len();
    let size: usize = if n % 8 == 0 {
        n / 8
    } else {
        n / 8 + 1
    };
    let mut res: Vec<u8> = Vec::new();
    let mut j: usize = 0;
    while j < size
        invariant
            j <= size,
            res.len() == j,
            forall|m: int| 0 <= m < j ==> res[m] == 0u8,
        decreases size - j,
    {
        res.push(0u8);
        j += 1;
    }
    assert(byte_of_bits(false, false, false, false, false, false, false, false) == 0u8)
        by (bit_vector);
    let mut i: usize = 0;
    while i < n
        invariant
            i <= n,
            n == coils.len(),
            res.len() == size,
            size == packed_len(n as nat),
            forall|m: int| 0 <= m < size ==> res[m] == packed_byte(coils@.take(i as int), m),
        decreases n - i,
    {
        let v: u8 = if coils[i] {
            1
        } else {
            0
        };
        let shift: u8 = (i % 8) as u8;
        let at: usize = i / 8;
        proof {
            lemma_pack_step(coils@, i as int);
        }
        let byte: u8 = res[at] | (v << shift);
        res.set(at, byte);
        i += 1;
    }
    proof {
        assert(coils@.take(n as int) =~= coils@);
        assert(res@ =~= spec_pack_coils(coils@));
    }
    res
}

/// Reads the first `count` coils out of packed bytes.
pub fn unpack_coils(bytes: &[u8], count: u16) -> (coils: Vec<bool>)
    requires
        packed_len(count as nat) <= bytes.len(),
    ensures
        coils@ == spec_unpack_coils(bytes@, count as nat),
{
    let n: usize = count as usize;
    let mut res: Vec<bool> = Vec::with_capacity(n);
    let mut i: usize = 0;
    while i < n
        invariant
            i <= n,
            n == count,
            packed_len(count as nat) <= bytes.len(),
            res.len() == i,
            forall|m: int| 0 <= m < i ==> res[m] == bit_set(bytes[m / 8], m % 8),
        decreases n - i,
    {
        let shift: u8 = (i % 8) as u8;
        res.push((bytes[i / 8] >> shift) & 1 > 0);
        i += 1;
    }
    proof {
        assert(res@ =~= spec_unpack_coils(bytes@, count as nat));
    }
    res
}

} // verus!
