//! The raw atomic operations over a region of memory. A value is a byte
//! pattern of the operand's width, moved and compared as bytes and never read
//! as a value of any type: it may hold bytes that were never written.
use vstd::prelude::*;
use crate::ordering::{Ordering, valid_compare_exchange};
use crate::strategy::{Arch, Caps, OpKind, Strategy, select, spec_select};
use crate::partword::{
    byte_of, create_mask_values, extract, insert, lemma_bytes_determine_word, lemma_extract_bytes,
    lemma_insert_bytes, lemma_word_from_bytes, spec_extract, spec_insert, spec_shift, word_from,
};

verus! {

/// An operand width.
#[derive(Clone, Copy, Debug, PartialEq, Eq, Structural)]
pub enum Width {
    W8,
    W16,
    W32,
    W64,
    W128,
}

impl Width {
    pub open spec fn spec_size(self) -> nat {
        match self {
            Width::W8 => 1,
            Width::W16 => 2,
            Width::W32 => 4,
            Width::W64 => 8,
            Width::W128 => 16,
        }
    }

    /// The width in bytes, which is also the alignment that an address of it needs.
    pub fn size(self) -> (r: usize)
        ensures
            r == self.spec_size(),
    {
        match self {
            Width::W8 => 1,
            Width::W16 => 2,
            Width::W32 => 4,
            Width::W64 => 8,
            Width::W128 => 16,
        }
    }
}

/// An address together with the width of the operand stored there.
#[derive(Clone, Copy, Debug, PartialEq, Eq, Structural)]
pub struct Span {
    pub addr: usize,
    pub width: Width,
}

impl Span {
    pub open spec fn spec_aligned(self) -> bool {
        self.addr as int % self.width.spec_size() as int == 0
    }

    pub open spec fn spec_end(self) -> int {
        self.addr + self.width.spec_size()
    }

    /// The span lies naturally aligned within a memory of `len` bytes.
    pub open spec fn fits(self, len: nat) -> bool {
        self.spec_aligned() && self.spec_end() <= len
    }

    /// The one checked boundary: a span exists only where the address is
    /// naturally aligned for the width.
    pub fn new(addr: usize, width: Width) -> (r: Option<Span>)
        ensures
            r == (if addr as int % width.spec_size() as int == 0 {
                Some(Span { addr, width })
            } else {
                None
            }),
    {
        if addr % width.size() == 0 {
            Some(Span { addr, width })
        } else {
            None
        }
    }
}

/// The bytes that `s` covers in `m`.
pub open spec fn read_span(m: Seq<u8>, s: Span) -> Seq<u8> {
    m.subrange(s.addr as int, s.spec_end())
}

/// `m` with the bytes that `s` covers replaced by `v`.
pub open spec fn write_span(m: Seq<u8>, s: Span, v: Seq<u8>) -> Seq<u8> {
    Seq::new(
        m.len(),
        |i: int|
            if s.addr <= i < s.spec_end() {
                v[i - s.addr]
            } else {
                m[i]
            },
    )
}

/// What a compare-exchange does to `m`: `new` is written where `s` holds `expected`.
pub open spec fn compare_exchange(m: Seq<u8>, s: Span, expected: Seq<u8>, new: Seq<u8>) -> Seq<u8> {
    if read_span(m, s) == expected {
        write_span(m, s, new)
    } else {
        m
    }
}

/// The facts about the target, fixed when it is built, that decide how an
/// operation is carried out.
#[derive(Clone, Copy, Debug, PartialEq, Eq, Structural)]
pub struct Target {
    /// The most significant byte of a word lies at its lowest address.
    pub big_endian: bool,
    /// The processor swaps and compares-and-exchanges 8- and 16-bit operands
    /// itself. Where it does not, those operations go through the aligned
    /// word that contains the operand.
    pub sub_word_rmw: bool,
}

impl Target {
    /// The target for an architecture with the given capabilities and byte
    /// order: it handles 8- and 16-bit operands itself unless its dispatch
    /// sends them through the containing word.
    pub fn of(arch: Arch, caps: Caps, big_endian: bool) -> (r: Target)
        ensures
            r.big_endian == big_endian,
            r.sub_word_rmw == (spec_select(arch, caps, Width::W8, OpKind::Swap)
                != Strategy::SubWord),
    {
        let s = select(arch, caps, Width::W8, OpKind::Swap);
        Target { big_endian, sub_word_rmw: s != Strategy::SubWord }
    }
}

/// Which byte of a word, counted from the least significant, lies at byte
/// `i` of its address range.
pub open spec fn lane(i: int, big_endian: bool) -> int {
    if big_endian {
        3 - i
    } else {
        i
    }
}

/// The word at the aligned address `a` of `m`.
pub open spec fn word_at(m: Seq<u8>, a: int, big_endian: bool) -> u32 {
    if big_endian {
        word_from(m[a + 3], m[a + 2], m[a + 1], m[a])
    } else {
        word_from(m[a], m[a + 1], m[a + 2], m[a + 3])
    }
}

/// `m` with the word `w` stored at the aligned address `a`.
pub open spec fn put_word(m: Seq<u8>, a: int, w: u32, big_endian: bool) -> Seq<u8> {
    Seq::new(
        m.len(),
        |j: int|
            if a <= j < a + 4 {
                byte_of(w, lane(j - a, big_endian) as u32)
            } else {
                m[j]
            },
    )
}

/// The value that the bytes `v` of an 8- or 16-bit operand make, in the
/// target's byte order.
pub open spec fn field_value(v: Seq<u8>, big_endian: bool) -> u32 {
    if v.len() == 1 {
        word_from(v[0], 0, 0, 0)
    } else if big_endian {
        word_from(v[1], v[0], 0, 0)
    } else {
        word_from(v[0], v[1], 0, 0)
    }
}

/// Where byte `t` of an operand of `size` bytes lies in its value.
pub open spec fn field_lane(t: int, size: int, big_endian: bool) -> int {
    if big_endian {
        size - 1 - t
    } else {
        t
    }
}

/// Whether an operation on `s` goes through the word that contains it.
pub open spec fn emulated(target: Target, s: Span) -> bool {
    !target.sub_word_rmw && (s.width == Width::W8 || s.width == Width::W16)
}

/// The operand bytes `v` read back from their value: byte `t` of the operand
/// is byte `field_lane(t)` of the value, and the value's other bytes are zero.
proof fn lemma_field_value_bytes(v: Seq<u8>, big_endian: bool)
    requires
        v.len() == 1 || v.len() == 2,
    ensures
        forall|t: u32|
            t < 4 ==> #[trigger] byte_of(field_value(v, big_endian), t) == (if t < v.len() {
                v[field_lane(t as int, v.len() as int, big_endian)]
            } else {
                0u8
            }),
{
    if v.len() == 1 {
        lemma_word_from_bytes(v[0], 0, 0, 0);
    } else if big_endian {
        lemma_word_from_bytes(v[1], v[0], 0, 0);
    } else {
        lemma_word_from_bytes(v[0], v[1], 0, 0);
    }
    assert forall|t: u32| t < 4 implies #[trigger] byte_of(field_value(v, big_endian), t) == (if t
        < v.len() {
        v[field_lane(t as int, v.len() as int, big_endian)]
    } else {
        0u8
    }) by {
        assert(t == 0 || t == 1 || t == 2 || t == 3);
    }
}

/// The bytes of the word at `a` are the bytes of memory there, each in its lane.
proof fn lemma_word_at_bytes(m: Seq<u8>, a: int, big_endian: bool)
    requires
        0 <= a,
        a + 4 <= m.len(),
    ensures
        forall|i: int|
            0 <= i < 4 ==> #[trigger] byte_of(word_at(m, a, big_endian), lane(i, big_endian) as u32)
                == m[a + i],
{
    if big_endian {
        lemma_word_from_bytes(m[a + 3], m[a + 2], m[a + 1], m[a]);
    } else {
        lemma_word_from_bytes(m[a], m[a + 1], m[a + 2], m[a + 3]);
    }
    assert forall|i: int| 0 <= i < 4 implies #[trigger] byte_of(
        word_at(m, a, big_endian),
        lane(i, big_endian) as u32,
    ) == m[a + i] by {
        assert(i == 0 || i == 1 || i == 2 || i == 3);
    }
}

/// Storing the word at `a` with the operand at `s` inserted writes the operand
/// and nothing else.
proof fn lemma_emulated_write(m: Seq<u8>, s: Span, v: Seq<u8>, big_endian: bool)
    requires
        s.fits(m.len()),
        m.len() % 4 == 0,
        s.width == Width::W8 || s.width == Width::W16,
        v.len() == s.width.spec_size(),
    ensures
        ({
            let a = s.addr as int - s.addr as int % 4;
            let size = s.width.spec_size();
            let shift = spec_shift(s.addr as int % 4, size as int, big_endian);
            put_word(m, a, spec_insert(word_at(m, a, big_endian), shift as u32, size as usize,
            field_value(v, big_endian)), big_endian) == write_span(m, s, v)
        }),
{
    let a = s.addr as int - s.addr as int % 4;
    let size = s.width.spec_size();
    let off = s.addr as int % 4;
    let k = spec_shift(off, size as int, big_endian) / 8;
    let w = word_at(m, a, big_endian);
    let x = field_value(v, big_endian);
    assert(a + 4 <= m.len());
    lemma_word_at_bytes(m, a, big_endian);
    lemma_field_value_bytes(v, big_endian);
    let lhs = put_word(m, a, spec_insert(w, (8 * k) as u32, size as usize, x), big_endian);
    assert forall|j: int| 0 <= j < m.len() implies lhs[j] == write_span(m, s, v)[j] by {
        if a <= j < a + 4 {
            let i = j - a;
            assert(i == 0 || i == 1 || i == 2 || i == 3);
            lemma_insert_bytes(w, k as u32, size as usize, x, lane(i, big_endian) as u32);
        }
    }
    assert(lhs =~= write_span(m, s, v));
}

/// The operand extracted from the word at `a` is the value of the bytes at `s`.
proof fn lemma_emulated_read(m: Seq<u8>, s: Span, big_endian: bool)
    requires
        s.fits(m.len()),
        m.len() % 4 == 0,
        s.width == Width::W8 || s.width == Width::W16,
    ensures
        ({
            let a = s.addr as int - s.addr as int % 4;
            let size = s.width.spec_size();
            let shift = spec_shift(s.addr as int % 4, size as int, big_endian);
            spec_extract(word_at(m, a, big_endian), shift as u32, size as usize) == field_value(
                read_span(m, s),
                big_endian,
            )
        }),
{
    let a = s.addr as int - s.addr as int % 4;
    let size = s.width.spec_size();
    let off = s.addr as int % 4;
    let k = spec_shift(off, size as int, big_endian) / 8;
    let w = word_at(m, a, big_endian);
    let r = read_span(m, s);
    let p = spec_extract(w, (8 * k) as u32, size as usize);
    assert(a + 4 <= m.len());
    lemma_word_at_bytes(m, a, big_endian);
    lemma_field_value_bytes(r, big_endian);
    assert forall|t: u32| t < 4 implies #[trigger] byte_of(p, t) == byte_of(
        field_value(r, big_endian),
        t,
    ) by {
        assert(t == 0 || t == 1 || t == 2 || t == 3);
        lemma_extract_bytes(w, k as u32, size as usize, t);
        if t < size {
            let i = if big_endian {
                3 - (k + t)
            } else {
                k + t
            };
            assert(0 <= i < 4);
            assert(lane(i, big_endian) == k + t);
            assert(byte_of(w, lane(i, big_endian) as u32) == m[a + i]);
        }
    }
    assert(byte_of(p, 0) == byte_of(field_value(r, big_endian), 0));
    assert(byte_of(p, 1) == byte_of(field_value(r, big_endian), 1));
    assert(byte_of(p, 2) == byte_of(field_value(r, big_endian), 2));
    assert(byte_of(p, 3) == byte_of(field_value(r, big_endian), 3));
    lemma_bytes_determine_word(p, field_value(r, big_endian));
}

/// Operands of one or two bytes with the same value are the same bytes.
proof fn lemma_field_value_injective(u: Seq<u8>, v: Seq<u8>, big_endian: bool)
    requires
        u.len() == v.len(),
        u.len() == 1 || u.len() == 2,
        field_value(u, big_endian) == field_value(v, big_endian),
    ensures
        u == v,
{
    lemma_field_value_bytes(u, big_endian);
    lemma_field_value_bytes(v, big_endian);
    assert forall|t: int| 0 <= t < u.len() implies u[t] == v[t] by {
        let l = field_lane(t, u.len() as int, big_endian);
        assert(0 <= l < u.len());
        let lu = l as u32;
        assert(lu as int == l);
        assert(field_lane(l, u.len() as int, big_endian) == t);
        assert(byte_of(field_value(u, big_endian), lu) == u[t]);
        assert(byte_of(field_value(v, big_endian), lu) == v[t]);
    }
    assert(u =~= v);
}

/// The value of an 8- or 16-bit operand's bytes.
fn field_value_of(v: &Vec<u8>, big_endian: bool) -> (r: u32)
    requires
        v@.len() == 1 || v@.len() == 2,
    ensures
        r == field_value(v@, big_endian),
{
    if v.len() == 1 {
        let b = v[0];
        assert(word_from(b, 0, 0, 0) == b as u32) by (bit_vector);
        b as u32
    } else {
        let (lo, hi) = if big_endian {
            (v[1], v[0])
        } else {
            (v[0], v[1])
        };
        assert(word_from(lo, hi, 0, 0) == (lo as u32) | ((hi as u32) << 8u32)) by (bit_vector);
        (lo as u32) | ((hi as u32) << 8u32)
    }
}

/// Bytes written out from the value of `r`, each from its lane, are `r`.
proof fn lemma_put_field_reads(out: Seq<u8>, r: Seq<u8>, big_endian: bool)
    requires
        r.len() == 1 || r.len() == 2,
        out.len() == r.len(),
        forall|t: int|
            0 <= t < out.len() ==> #[trigger] out[t] == byte_of(
                field_value(r, big_endian),
                field_lane(t, out.len() as int, big_endian) as u32,
            ),
    ensures
        out == r,
{
    lemma_field_value_bytes(r, big_endian);
    assert forall|t: int| 0 <= t < out.len() implies out[t] == r[t] by {
        let l = field_lane(t, out.len() as int, big_endian);
        let lu = l as u32;
        assert(lu as int == l);
        assert(field_lane(l, r.len() as int, big_endian) == t);
        assert(byte_of(field_value(r, big_endian), lu) == r[t]);
    }
    assert(out =~= r);
}

/// Writes the bytes of the operand whose value is `x` into `out`.
fn put_field(x: u32, big_endian: bool, out: &mut Vec<u8>)
    requires
        old(out)@.len() == 1 || old(out)@.len() == 2,
    ensures
        final(out)@.len() == old(out)@.len(),
        forall|t: int|
            0 <= t < final(out)@.len() ==> #[trigger] final(out)@[t] == byte_of(
                x,
                field_lane(t, final(out)@.len() as int, big_endian) as u32,
            ),
{
    let n = out.len();
    let mut t: usize = 0;
    while t < n
        invariant
            n == out@.len(),
            n == 1 || n == 2,
            t <= n,
            forall|j: int|
                0 <= j < t ==> #[trigger] out@[j] == byte_of(
                    x,
                    field_lane(j, n as int, big_endian) as u32,
                ),
        decreases n - t,
    {
        let l: u32 = if big_endian {
            (n - 1 - t) as u32
        } else {
            t as u32
        };
        out[t] = ((x >> (8 * l)) & 0xff) as u8;
        t = t + 1;
    }
}

/// A region of byte-addressed memory on which the atomic operations act.
pub struct Memory {
    pub bytes: Vec<u8>,
    pub target: Target,
}

impl View for Memory {
    type V = Seq<u8>;

    open spec fn view(&self) -> Seq<u8> {
        self.bytes@
    }
}

impl Memory {
    /// The memory is made of whole words.
    pub open spec fn wf(&self) -> bool {
        self@.len() % 4 == 0
    }

    pub fn new(bytes: Vec<u8>, target: Target) -> (r: Memory)
        requires
            bytes@.len() % 4 == 0,
        ensures
            r.wf(),
            r@ == bytes@,
            r.target == target,
    {
        Memory { bytes, target }
    }

    /// Copies the bytes that `s` covers into `out`.
    fn copy_out(&self, s: Span, out: &mut Vec<u8>)
        requires
            s.fits(self@.len()),
            old(out)@.len() == s.width.spec_size(),
        ensures
            final(out)@ == read_span(self@, s),
    {
        let n = s.width.size();
        let mut i: usize = 0;
        while i < n
            invariant
                n == s.width.spec_size(),
                s.fits(self@.len()),
                i <= n,
                out@.len() == n,
                forall|j: int| 0 <= j < i ==> out@[j] == self@[s.addr + j],
            decreases n - i,
        {
            out[i] = self.bytes[s.addr + i];
            i = i + 1;
        }
        assert(out@ =~= read_span(self@, s));
    }

    /// Writes `v` over the bytes that `s` covers.
    fn copy_in(&mut self, s: Span, v: &Vec<u8>)
        requires
            s.fits(old(self)@.len()),
            v@.len() == s.width.spec_size(),
        ensures
            final(self)@ == write_span(old(self)@, s, v@),
            final(self).target == old(self).target,
    {
        let ghost start = self@;
        let ghost target = self.target;
        let n = s.width.size();
        let mut i: usize = 0;
        while i < n
            invariant
                self.target == target,
                n == s.width.spec_size(),
                v@.len() == n,
                s.fits(start.len()),
                i <= n,
                self@.len() == start.len(),
                forall|j: int|
                    0 <= j < start.len() ==> self@[j] == (if s.addr <= j < s.addr + i {
                        v@[j - s.addr]
                    } else {
                        start[j]
                    }),
            decreases n - i,
        {
            self.bytes[s.addr + i] = v[i];
            i = i + 1;
        }
        assert(self@ =~= write_span(start, s, v@));
    }

    /// Whether the bytes that `s` covers equal `v`.
    fn holds(&self, s: Span, v: &Vec<u8>) -> (r: bool)
        requires
            s.fits(self@.len()),
            v@.len() == s.width.spec_size(),
        ensures
            r == (read_span(self@, s) == v@),
    {
        let n = s.width.size();
        let mut i: usize = 0;
        while i < n
            invariant
                n == s.width.spec_size(),
                v@.len() == n,
                s.fits(self@.len()),
                i <= n,
                forall|j: int| 0 <= j < i ==> v@[j] == self@[s.addr + j],
            decreases n - i,
        {
            if self.bytes[s.addr + i] != v[i] {
                assert(read_span(self@, s)[i as int] != v@[i as int]);
                return false;
            }
            i = i + 1;
        }
        assert(read_span(self@, s) =~= v@);
        true
    }

    /// Whether an operation on `s` goes through the word that contains it.
    fn emulates(&self, s: Span) -> (r: bool)
        ensures
            r == emulated(self.target, s),
    {
        !self.target.sub_word_rmw && (s.width == Width::W8 || s.width == Width::W16)
    }

    /// The word at the aligned address `a`.
    fn load_word(&self, a: usize) -> (w: u32)
        requires
            a % 4 == 0,
            a + 4 <= self@.len(),
        ensures
            w == word_at(self@, a as int, self.target.big_endian),
    {
        let b0 = self.bytes[a] as u32;
        let b1 = self.bytes[a + 1] as u32;
        let b2 = self.bytes[a + 2] as u32;
        let b3 = self.bytes[a + 3] as u32;
        if self.target.big_endian {
            b3 | (b2 << 8u32) | (b1 << 16u32) | (b0 << 24u32)
        } else {
            b0 | (b1 << 8u32) | (b2 << 16u32) | (b3 << 24u32)
        }
    }

    /// The word-wide compare-and-swap at the aligned address `a`: the word
    /// takes `new` if it holds `expected`, and what it held is returned.
    fn compare_and_swap_word(&mut self, a: usize, expected: u32, new: u32) -> (prior: u32)
        requires
            a % 4 == 0,
            a + 4 <= old(self)@.len(),
        ensures
            prior == word_at(old(self)@, a as int, old(self).target.big_endian),
            final(self).target == old(self).target,
            final(self)@ == (if prior == expected {
                put_word(old(self)@, a as int, new, old(self).target.big_endian)
            } else {
                old(self)@
            }),
    {
        let prior = self.load_word(a);
        if prior == expected {
            let ghost start = self@;
            let ghost target = self.target;
            let be = self.target.big_endian;
            let mut i: usize = 0;
            while i < 4
                invariant
                    self.target == target,
                    a % 4 == 0,
                    a + 4 <= start.len(),
                    i <= 4,
                    be == self.target.big_endian,
                    self@.len() == start.len(),
                    forall|j: int|
                        0 <= j < start.len() ==> self@[j] == (if a <= j < a + i {
                            byte_of(new, lane(j - a, be) as u32)
                        } else {
                            start[j]
                        }),
                decreases 4 - i,
            {
                let l: u32 = if be {
                    3 - i as u32
                } else {
                    i as u32
                };
                self.bytes[a + i] = ((new >> (8 * l)) & 0xff) as u8;
                i = i + 1;
            }
            assert(self@ =~= put_word(start, a as int, new, be));
        }
        prior
    }

    /// Swaps an 8- or 16-bit operand through the word that contains it: a
    /// word-wide compare-and-swap loop whose new word is the old one with the
    /// operand's bits replaced.
    fn swap_emulated(&mut self, dst: Span, val: &Vec<u8>, out: &mut Vec<u8>)
        requires
            old(self).wf(),
            dst.fits(old(self)@.len()),
            dst.width == Width::W8 || dst.width == Width::W16,
            val@.len() == dst.width.spec_size(),
            old(out)@.len() == dst.width.spec_size(),
        ensures
            final(out)@ == read_span(old(self)@, dst),
            final(self)@ == write_span(old(self)@, dst, val@),
            final(self).target == old(self).target,
    {
        let ghost start = self@;
        let ghost target = self.target;
        let be = self.target.big_endian;
        let size = dst.width.size();
        let mv = create_mask_values(dst.addr, size, be);
        let v = field_value_of(val, be);
        let mut cur: u32 = self.load_word(mv.aligned);
        let mut done: bool = false;
        while !done
            invariant
                self.target == target,
                start.len() % 4 == 0,
                mv.aligned % 4 == 0,
                mv.aligned + 4 <= start.len(),
                crate::partword::field_fits(mv.shift, size),
                be == self.target.big_endian,
                !done ==> cur == word_at(self@, mv.aligned as int, be) && self@ == start,
                done ==> cur == word_at(start, mv.aligned as int, be) && self@ == put_word(
                    start,
                    mv.aligned as int,
                    spec_insert(cur, mv.shift, size, v),
                    be,
                ),
            decreases
                if done {
                    0int
                } else {
                    1int
                },
        {
            let desired: u32 = insert(cur, mv.shift, size, v);
            let seen: u32 = self.compare_and_swap_word(mv.aligned, cur, desired);
            if seen == cur {
                done = true;
            } else {
                cur = seen;
            }
        }
        let prior = extract(cur, mv.shift, size);
        put_field(prior, be, out);
        proof {
            lemma_emulated_write(start, dst, val@, be);
            lemma_emulated_read(start, dst, be);
            lemma_put_field_reads(out@, read_span(start, dst), be);
        }
    }

    /// Compares and exchanges an 8- or 16-bit operand through the word that
    /// contains it: a word-wide compare-and-swap loop that gives up as soon
    /// as the operand's bits differ from `expected`.
    fn compare_exchange_emulated(
        &mut self,
        dst: Span,
        expected: &Vec<u8>,
        new: &Vec<u8>,
        out: &mut Vec<u8>,
    ) -> (r: bool)
        requires
            old(self).wf(),
            dst.fits(old(self)@.len()),
            dst.width == Width::W8 || dst.width == Width::W16,
            expected@.len() == dst.width.spec_size(),
            new@.len() == dst.width.spec_size(),
            old(out)@.len() == dst.width.spec_size(),
        ensures
            r == (read_span(old(self)@, dst) == expected@),
            final(out)@ == read_span(old(self)@, dst),
            final(self)@ == compare_exchange(old(self)@, dst, expected@, new@),
            final(self).target == old(self).target,
    {
        let ghost start = self@;
        let ghost target = self.target;
        let be = self.target.big_endian;
        let size = dst.width.size();
        let mv = create_mask_values(dst.addr, size, be);
        let want = field_value_of(expected, be);
        let v = field_value_of(new, be);
        let mut cur: u32 = self.load_word(mv.aligned);
        let mut done: bool = false;
        let mut matched: bool = false;
        while !done
            invariant
                self.target == target,
                start.len() % 4 == 0,
                mv.aligned % 4 == 0,
                mv.aligned + 4 <= start.len(),
                crate::partword::field_fits(mv.shift, size),
                be == self.target.big_endian,
                !done ==> cur == word_at(self@, mv.aligned as int, be) && self@ == start
                    && !matched,
                done ==> cur == word_at(start, mv.aligned as int, be),
                done ==> matched == (spec_extract(cur, mv.shift, size) == want),
                done ==> self@ == (if matched {
                    put_word(start, mv.aligned as int, spec_insert(cur, mv.shift, size, v), be)
                } else {
                    start
                }),
            decreases
                if done {
                    0int
                } else {
                    1int
                },
        {
            if extract(cur, mv.shift, size) != want {
                done = true;
            } else {
                let desired: u32 = insert(cur, mv.shift, size, v);
                let seen: u32 = self.compare_and_swap_word(mv.aligned, cur, desired);
                if seen == cur {
                    done = true;
                    matched = true;
                } else {
                    cur = seen;
                }
            }
        }
        let prior = extract(cur, mv.shift, size);
        put_field(prior, be, out);
        proof {
            lemma_emulated_write(start, dst, new@, be);
            lemma_emulated_read(start, dst, be);
            lemma_put_field_reads(out@, read_span(start, dst), be);
            if matched {
                lemma_field_value_injective(read_span(start, dst), expected@, be);
            }
        }
        matched
    }

    /// Copies the pattern at `src` into `out`.
    pub fn atomic_load(&self, src: Span, out: &mut Vec<u8>, order: Ordering)
        requires
            src.fits(self@.len()),
            old(out)@.len() == src.width.spec_size(),
            order.spec_valid_for_load(),
        ensures
            final(out)@ == read_span(self@, src),
    {
        self.copy_out(src, out);
    }

    /// Copies the pattern `val` into `dst`.
    pub fn atomic_store(&mut self, dst: Span, val: &Vec<u8>, order: Ordering)
        requires
            dst.fits(old(self)@.len()),
            val@.len() == dst.width.spec_size(),
            order.spec_valid_for_store(),
        ensures
            final(self)@ == write_span(old(self)@, dst, val@),
            final(self).target == old(self).target,
    {
        self.copy_in(dst, val);
    }

    /// Replaces the pattern at `dst` with `val` and hands the one it replaced
    /// out through `out`.
    pub fn atomic_swap(&mut self, dst: Span, val: &Vec<u8>, out: &mut Vec<u8>, order: Ordering)
        requires
            old(self).wf(),
            dst.fits(old(self)@.len()),
            val@.len() == dst.width.spec_size(),
            old(out)@.len() == dst.width.spec_size(),
        ensures
            final(out)@ == read_span(old(self)@, dst),
            final(self)@ == write_span(old(self)@, dst, val@),
            final(self).target == old(self).target,
    {
        if self.emulates(dst) {
            self.swap_emulated(dst, val, out);
        } else {
            self.copy_out(dst, out);
            self.copy_in(dst, val);
        }
    }

    /// Compares the pattern at `dst` with `expected` and, where they are equal,
    /// replaces it with `new`. The pattern that `dst` held is handed out
    /// through `out` either way; the result says whether it was replaced.
    pub fn atomic_compare_exchange(
        &mut self,
        dst: Span,
        expected: &Vec<u8>,
        new: &Vec<u8>,
        out: &mut Vec<u8>,
        success: Ordering,
        failure: Ordering,
    ) -> (r: bool)
        requires
            dst.fits(old(self)@.len()),
            expected@.len() == dst.width.spec_size(),
            new@.len() == dst.width.spec_size(),
            old(out)@.len() == dst.width.spec_size(),
            valid_compare_exchange(success, failure),
            old(self).wf(),
        ensures
            r == (read_span(old(self)@, dst) == expected@),
            final(out)@ == read_span(old(self)@, dst),
            final(self)@ == compare_exchange(old(self)@, dst, expected@, new@),
            final(self).target == old(self).target,
    {
        if self.emulates(dst) {
            return self.compare_exchange_emulated(dst, expected, new, out);
        }
        self.copy_out(dst, out);
        if self.holds(dst, expected) {
            self.copy_in(dst, new);
            true
        } else {
            false
        }
    }

    /// One attempt at a compare-exchange, on an architecture whose
    /// conditional store may fail though nothing changed the memory:
    /// `committed` is whether the store-conditional kept its reservation.
    /// Where it did not, the attempt reports failure and changes nothing,
    /// and `out` still holds what `dst` holds.
    pub fn atomic_compare_exchange_weak(
        &mut self,
        dst: Span,
        expected: &Vec<u8>,
        new: &Vec<u8>,
        out: &mut Vec<u8>,
        success: Ordering,
        failure: Ordering,
        committed: bool,
    ) -> (r: bool)
        requires
            dst.fits(old(self)@.len()),
            expected@.len() == dst.width.spec_size(),
            new@.len() == dst.width.spec_size(),
            old(out)@.len() == dst.width.spec_size(),
            valid_compare_exchange(success, failure),
            old(self).wf(),
        ensures
            final(self).target == old(self).target,
            r == (committed && read_span(old(self)@, dst) == expected@),
            final(out)@ == read_span(old(self)@, dst),
            final(self)@ == (if committed {
                compare_exchange(old(self)@, dst, expected@, new@)
            } else {
                old(self)@
            }),
    {
        if committed {
            self.atomic_compare_exchange(dst, expected, new, out, success, failure)
        } else {
            self.copy_out(dst, out);
            false
        }
    }
}

} // verus!
