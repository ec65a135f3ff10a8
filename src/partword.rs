//! Sub-word emulation: an 8- or 16-bit atomic operation carried out on the
//! naturally aligned 32-bit word that contains it, by masking.
use vstd::prelude::*;

verus! {

/// The value of the lowest `size` bytes of a word: 0xff or 0xffff.
pub open spec fn field_mask(size: usize) -> u32 {
    if size == 1 {
        0xffu32
    } else {
        0xffffu32
    }
}

/// A sub-word size: one or two bytes.
pub open spec fn sub_word_size(size: usize) -> bool {
    size == 1 || size == 2
}

/// The bit position of a field of `size` bytes at byte `offset` of a word. On a
/// little-endian machine byte 0 is the least significant; on a big-endian one
/// it is the most significant.
pub open spec fn spec_shift(offset: int, size: int, big_endian: bool) -> int {
    if big_endian {
        8 * (4 - size - offset)
    } else {
        8 * offset
    }
}

/// A shift and size that place a field wholly inside a word.
pub open spec fn field_fits(shift: u32, size: usize) -> bool {
    &&& sub_word_size(size)
    &&& shift % 8 == 0
    &&& shift as int + 8 * size as int <= 32
}

/// Where a sub-word field lies: the address of the word that holds it, the bit
/// position of the field in that word, and the mask that covers exactly its bits.
#[derive(Clone, Copy, Debug, PartialEq, Eq, Structural)]
pub struct MaskValues {
    pub aligned: usize,
    pub shift: u32,
    pub mask: u32,
}

/// Locates the field of `size` bytes at address `addr`, which is aligned to `size`.
pub fn create_mask_values(addr: usize, size: usize, big_endian: bool) -> (r: MaskValues)
    requires
        sub_word_size(size),
        addr % size == 0,
    ensures
        r.aligned == addr - addr % 4,
        r.aligned % 4 == 0,
        r.shift as int == spec_shift((addr % 4) as int, size as int, big_endian),
        field_fits(r.shift, size),
        r.mask == field_mask(size) << r.shift,
{
    let offset: usize = addr & 3;
    let aligned: usize = addr & !3usize;
    proof {
        assert(offset == addr % 4) by (bit_vector)
            requires
                offset == addr & 3,
        ;
        assert(aligned == addr - addr % 4) by (bit_vector)
            requires
                aligned == addr & !3usize,
        ;
    }
    let lane: usize = if big_endian {
        offset ^ (4 - size)
    } else {
        offset
    };
    proof {
        if big_endian {
            assert(offset < 4 && (size == 1 || (size == 2 && offset % 2 == 0)) ==> (offset ^ ((4
                - size) as usize)) == 4 - size - offset) by (bit_vector);
            assert(size == 2 ==> offset % 2 == 0) by {
                if size == 2 {
                    assert(addr % 2 == 0);
                }
            }
        }
    }
    let shift: u32 = (lane as u32) * 8;
    let mask: u32 = if size == 1 {
        0xffu32 << shift
    } else {
        0xffffu32 << shift
    };
    MaskValues { aligned, shift, mask }
}

/// The field of `size` bytes at bit `shift` of `word`.
pub open spec fn spec_extract(word: u32, shift: u32, size: usize) -> u32 {
    (word >> shift) & field_mask(size)
}

/// `word` with the field of `size` bytes at bit `shift` replaced by the low
/// bytes of `v`.
pub open spec fn spec_insert(word: u32, shift: u32, size: usize, v: u32) -> u32 {
    (word & !(field_mask(size) << shift)) | ((v & field_mask(size)) << shift)
}

pub fn extract(word: u32, shift: u32, size: usize) -> (r: u32)
    requires
        field_fits(shift, size),
    ensures
        r == spec_extract(word, shift, size),
{
    if size == 1 {
        (word >> shift) & 0xff
    } else {
        (word >> shift) & 0xffff
    }
}

pub fn insert(word: u32, shift: u32, size: usize, v: u32) -> (r: u32)
    requires
        field_fits(shift, size),
    ensures
        r == spec_insert(word, shift, size, v),
{
    let m: u32 = if size == 1 {
        0xff
    } else {
        0xffff
    };
    (word & !(m << shift)) | ((v & m) << shift)
}

/// Extracting a field gives back what was inserted there, at every position
/// where a field fits.
pub proof fn lemma_extract_insert(word: u32, shift: u32, size: usize, v: u32)
    requires
        field_fits(shift, size),
    ensures
        spec_extract(spec_insert(word, shift, size, v), shift, size) == v & field_mask(size),
{
    if size == 1 {
        assert(shift <= 24 ==> ((((word & !(0xffu32 << shift)) | ((v & 0xffu32) << shift)) >> shift)
            & 0xffu32) == v & 0xffu32) by (bit_vector);
    } else {
        assert(shift <= 16 ==> ((((word & !(0xffffu32 << shift)) | ((v & 0xffffu32) << shift))
            >> shift) & 0xffffu32) == v & 0xffffu32) by (bit_vector);
    }
}

/// Inserting a field leaves every bit outside its mask as it was.
pub proof fn lemma_insert_keeps_rest(word: u32, shift: u32, size: usize, v: u32)
    requires
        field_fits(shift, size),
    ensures
        spec_insert(word, shift, size, v) & !(field_mask(size) << shift) == word & !(field_mask(
            size,
        ) << shift),
{
    let m = field_mask(size);
    assert(((word & !(m << shift)) | ((v & m) << shift)) & !(m << shift) == word & !(m << shift))
        by (bit_vector);
}

/// What a field reads as depends only on the bits under its mask: the other
/// bytes of the word do not change it.
pub proof fn lemma_extract_independent(w1: u32, w2: u32, shift: u32, size: usize)
    requires
        field_fits(shift, size),
        w1 & (field_mask(size) << shift) == w2 & (field_mask(size) << shift),
    ensures
        spec_extract(w1, shift, size) == spec_extract(w2, shift, size),
{
    let m = field_mask(size);
    assert(shift < 32 && w1 & (m << shift) == w2 & (m << shift) ==> (w1 >> shift) & m == (w2
        >> shift) & m) by (bit_vector);
}

/// The bits under a field's mask after an insertion depend only on the value
/// inserted, not on the word it was inserted into.
pub proof fn lemma_insert_independent(w1: u32, w2: u32, shift: u32, size: usize, v: u32)
    requires
        field_fits(shift, size),
    ensures
        spec_insert(w1, shift, size, v) & (field_mask(size) << shift) == spec_insert(
            w2,
            shift,
            size,
            v,
        ) & (field_mask(size) << shift),
{
    let m = field_mask(size);
    assert(((w1 & !(m << shift)) | ((v & m) << shift)) & (m << shift) == ((w2 & !(m << shift)) | ((
    v & m) << shift)) & (m << shift)) by (bit_vector);
}

/// Byte `j` of a word, counted from the least significant.
pub open spec fn byte_of(w: u32, j: u32) -> u8 {
    ((w >> ((8 * j) as u32)) & 0xffu32) as u8
}

/// The word whose bytes, from the least significant, are `b0` to `b3`.
pub open spec fn word_from(b0: u8, b1: u8, b2: u8, b3: u8) -> u32 {
    (b0 as u32) | ((b1 as u32) << 8u32) | ((b2 as u32) << 16u32) | ((b3 as u32) << 24u32)
}

/// The bytes of an assembled word are the bytes it was assembled from.
pub proof fn lemma_word_from_bytes(b0: u8, b1: u8, b2: u8, b3: u8)
    ensures
        byte_of(word_from(b0, b1, b2, b3), 0) == b0,
        byte_of(word_from(b0, b1, b2, b3), 1) == b1,
        byte_of(word_from(b0, b1, b2, b3), 2) == b2,
        byte_of(word_from(b0, b1, b2, b3), 3) == b3,
{
    assert(byte_of(word_from(b0, b1, b2, b3), 0) == b0) by (bit_vector);
    assert(byte_of(word_from(b0, b1, b2, b3), 1) == b1) by (bit_vector);
    assert(byte_of(word_from(b0, b1, b2, b3), 2) == b2) by (bit_vector);
    assert(byte_of(word_from(b0, b1, b2, b3), 3) == b3) by (bit_vector);
}

/// Two words with the same four bytes are the same word.
pub proof fn lemma_bytes_determine_word(x: u32, y: u32)
    requires
        byte_of(x, 0) == byte_of(y, 0),
        byte_of(x, 1) == byte_of(y, 1),
        byte_of(x, 2) == byte_of(y, 2),
        byte_of(x, 3) == byte_of(y, 3),
    ensures
        x == y,
{
    assert(byte_of(x, 0) == byte_of(y, 0) && byte_of(x, 1) == byte_of(y, 1) && byte_of(x, 2)
        == byte_of(y, 2) && byte_of(x, 3) == byte_of(y, 3) ==> x == y) by (bit_vector);
}

/// Byte by byte: a field inserted at byte `k` of a word supplies bytes `k` up
/// to `k + size` of the result, and the word supplies the others.
pub proof fn lemma_insert_bytes(w: u32, k: u32, size: usize, v: u32, j: u32)
    requires
        sub_word_size(size),
        k + size <= 4,
        j < 4,
    ensures
        byte_of(spec_insert(w, (8 * k) as u32, size, v), j) == (if k <= j < k + size {
            byte_of(v, (j - k) as u32)
        } else {
            byte_of(w, j)
        }),
{
    if size == 1 {
        assert(k + 1 <= 4 && j < 4 ==> byte_of(spec_insert(w, (8 * k) as u32, 1usize, v), j) == (if k
            <= j < k + 1 {
            byte_of(v, (j - k) as u32)
        } else {
            byte_of(w, j)
        })) by (bit_vector);
    } else {
        assert(k + 2 <= 4 && j < 4 ==> byte_of(spec_insert(w, (8 * k) as u32, 2usize, v), j) == (if k
            <= j < k + 2 {
            byte_of(v, (j - k) as u32)
        } else {
            byte_of(w, j)
        })) by (bit_vector);
    }
}

/// Byte by byte: the field extracted from byte `k` of a word holds that
/// word's bytes `k` up to `k + size`, and zero above them.
pub proof fn lemma_extract_bytes(w: u32, k: u32, size: usize, t: u32)
    requires
        sub_word_size(size),
        k + size <= 4,
        t < 4,
    ensures
        byte_of(spec_extract(w, (8 * k) as u32, size), t) == (if t < size {
            byte_of(w, (k + t) as u32)
        } else {
            0u8
        }),
{
    if size == 1 {
        assert(k + 1 <= 4 && t < 4 ==> byte_of(spec_extract(w, (8 * k) as u32, 1usize), t) == (if t
            < 1 {
            byte_of(w, (k + t) as u32)
        } else {
            0u8
        })) by (bit_vector);
    } else {
        assert(k + 2 <= 4 && t < 4 ==> byte_of(spec_extract(w, (8 * k) as u32, 2usize), t) == (if t
            < 2 {
            byte_of(w, (k + t) as u32)
        } else {
            0u8
        })) by (bit_vector);
    }
}

/// A sub-word value read as signed: the field's top bit copied upward.
pub fn sign_extend(v: u32, size: usize) -> (r: i32)
    requires
        sub_word_size(size),
        v <= field_mask(size),
    ensures
        r as int == (if size == 1 {
            if v >= 0x80 { v - 0x100 } else { v as int }
        } else {
            if v >= 0x8000 { v - 0x1_0000 } else { v as int }
        }),
{
    let sign: u32 = if size == 1 {
        0x80
    } else {
        0x8000
    };
    if v >= sign {
        v as i32 - 2 * (sign as i32)
    } else {
        v as i32
    }
}

} // verus!
