//! Four-state logic values: scalars and MSB-first bit vectors over
//! {0, 1, X, Z}, with formatting, predicates and concatenation.

use vstd::prelude::*;

use crate::numerals::{dec_text, hex_text, u64_to_dec, u64_to_hex_prefixed};

verus! {

/// One four-state logic bit.
#[derive(Clone, Copy, Debug, PartialEq, Eq, Structural)]
pub enum Bit {
    /// Logic low.
    V0,
    /// Logic high.
    V1,
    /// Unknown / uninitialized.
    X,
    /// High impedance.
    Z,
}

/// A sampled signal value: a single bit, or an MSB-first bit vector.
#[derive(Clone, Debug)]
pub enum VerilogValue {
    Scalar(Bit),
    Vector(Vec<Bit>),
}

/// The radix in which a value is rendered.
#[derive(Clone, Copy, Debug, PartialEq, Eq, Structural)]
pub enum DisplayType {
    Binary,
    Decimal,
    Hex,
}

impl DisplayType {
    /// Cycles to the next radix: binary, decimal, hex, and around again.
    pub fn next(&self) -> (r: DisplayType)
        ensures
            r == match *self {
                DisplayType::Binary => DisplayType::Decimal,
                DisplayType::Decimal => DisplayType::Hex,
                DisplayType::Hex => DisplayType::Binary,
            },
    {
        match self {
            DisplayType::Binary => DisplayType::Decimal,
            DisplayType::Decimal => DisplayType::Hex,
            DisplayType::Hex => DisplayType::Binary,
        }
    }

    /// The radix's name, as stored in a watch list file.
    pub fn name(&self) -> (r: &'static str)
        ensures
            r@ == display_type_name(*self),
    {
        proof {
            reveal_strlit("Binary");
            reveal_strlit("Decimal");
            reveal_strlit("Hex");
        }
        match self {
            DisplayType::Binary => "Binary",
            DisplayType::Decimal => "Decimal",
            DisplayType::Hex => "Hex",
        }
    }
}

/// The name under which each radix is written out.
pub open spec fn display_type_name(d: DisplayType) -> Seq<char> {
    match d {
        DisplayType::Binary => "Binary"@,
        DisplayType::Decimal => "Decimal"@,
        DisplayType::Hex => "Hex"@,
    }
}

/// The mathematical shape of a [`VerilogValue`]: which variant it is and
/// the bits it holds.
pub enum ValueView {
    Scalar(Bit),
    Vector(Seq<Bit>),
}

/// The abstraction of a value: its variant together with its bit sequence.
pub open spec fn vv_view(v: VerilogValue) -> ValueView {
    match v {
        VerilogValue::Scalar(b) => ValueView::Scalar(b),
        VerilogValue::Vector(bits) => ValueView::Vector(bits@),
    }
}

/// The bits of an abstract value, MSB first.
pub open spec fn view_bits(v: ValueView) -> Seq<Bit> {
    match v {
        ValueView::Scalar(b) => seq![b],
        ValueView::Vector(bits) => bits,
    }
}

/// The bits of a value, MSB first; a scalar contributes its single bit.
pub open spec fn vv_bits(v: VerilogValue) -> Seq<Bit> {
    match v {
        VerilogValue::Scalar(b) => seq![b],
        VerilogValue::Vector(bits) => bits@,
    }
}

/// The weight a bit contributes when a value is read as an unsigned
/// integer: 1 for logic high, 0 for everything else.
pub open spec fn bit_weight(b: Bit) -> nat {
    if b == Bit::V1 {
        1
    } else {
        0
    }
}

/// The unsigned integer read from an MSB-first bit sequence, with X and Z
/// treated as 0.
pub open spec fn bits_unsigned(bits: Seq<Bit>) -> nat
    decreases bits.len(),
{
    if bits.len() == 0 {
        0
    } else {
        bits_unsigned(bits.drop_last()) * 2 + bit_weight(bits.last())
    }
}

/// Whether any bit of the sequence is X or Z.
pub open spec fn has_unknown(bits: Seq<Bit>) -> bool {
    exists|i: int| 0 <= i < bits.len() && (bits[i] == Bit::X || bits[i] == Bit::Z)
}

/// The first X or Z bit in MSB-to-LSB order, if any.
pub open spec fn first_unknown(bits: Seq<Bit>) -> Option<Bit>
    decreases bits.len(),
{
    if bits.len() == 0 {
        Option::None
    } else if bits[0] == Bit::X || bits[0] == Bit::Z {
        Option::Some(bits[0])
    } else {
        first_unknown(bits.skip(1))
    }
}

/// The character a single bit prints as.
pub open spec fn bit_char(b: Bit) -> char {
    match b {
        Bit::V0 => '0',
        Bit::V1 => '1',
        Bit::X => 'x',
        Bit::Z => 'z',
    }
}

/// The binary rendering: each bit's character, MSB first.
pub open spec fn bits_text(bits: Seq<Bit>) -> Seq<char> {
    bits.map_values(|b: Bit| bit_char(b))
}

proof fn lemma_first_unknown_some(bits: Seq<Bit>)
    ensures
        first_unknown(bits) is Some <==> has_unknown(bits),
        first_unknown(bits) matches Option::Some(b) ==> (b == Bit::X || b == Bit::Z),
    decreases bits.len(),
{
    if bits.len() == 0 {
    } else if bits[0] == Bit::X || bits[0] == Bit::Z {
    } else {
        lemma_first_unknown_some(bits.skip(1));
        if has_unknown(bits) {
            let i = choose|i: int|
                0 <= i < bits.len() && (bits[i] == Bit::X || bits[i] == Bit::Z);
            assert(bits.skip(1)[i - 1] == bits[i]);
        }
        if has_unknown(bits.skip(1)) {
            let j = choose|j: int|
                0 <= j < bits.skip(1).len() && (bits.skip(1)[j] == Bit::X || bits.skip(1)[j]
                    == Bit::Z);
            assert(bits[j + 1] == bits.skip(1)[j]);
        }
    }
}

/// `bits_unsigned` is bounded by 2^len.
pub proof fn lemma_bits_unsigned_bound(bits: Seq<Bit>)
    ensures
        bits_unsigned(bits) < vstd::arithmetic::power2::pow2(bits.len()),
    decreases bits.len(),
{
    if bits.len() == 0 {
        vstd::arithmetic::power2::lemma_pow2_pos(0);
    } else {
        vstd::arithmetic::power2::lemma_pow2_unfold(bits.len());
        lemma_bits_unsigned_bound(bits.drop_last());
    }
}

impl VerilogValue {
    /// Whether rendering this value in decimal or hex cannot overflow a
    /// 64-bit accumulator: some bit is unknown (rendering short-circuits),
    /// or the width is at most 64.
    pub open spec fn numeric_in_range(self) -> bool {
        has_unknown(vv_bits(self)) || vv_bits(self).len() <= 64
    }

    /// Renders the value in binary: one character per bit, MSB first.
    pub fn as_binary(&self) -> (r: String)
        ensures
            r@ == bits_text(vv_bits(*self)),
    {
        match self {
            VerilogValue::Scalar(b) => bit_str(*b).to_owned(),
            VerilogValue::Vector(bits) => {
                let mut s = String::new();
                let mut i: usize = 0;
                while i < bits.len()
                    invariant
                        i <= bits.len(),
                        s@ == bits_text(bits@).take(i as int),
                    decreases bits.len() - i,
                {
                    s.append(bit_str(bits[i]));
                    proof {
                        assert(s@ =~= bits_text(bits@).take(i + 1));
                    }
                    i = i + 1;
                }
                proof {
                    assert(bits_text(bits@).take(bits@.len() as int) =~= bits_text(bits@));
                }
                s
            },
        }
    }
}

/// Whether every bit of the sequence equals `b`.
pub open spec fn all_bits(bits: Seq<Bit>, b: Bit) -> bool {
    forall|i: int| 0 <= i < bits.len() ==> bits[i] == b
}

/// The decimal rendering of a value: the bit character for a scalar; for a
/// vector, the first unknown symbol ("X" or "Z"), or the decimal integer
/// the bits spell MSB-first.
pub open spec fn spec_as_decimal(v: VerilogValue) -> Seq<char> {
    match v {
        VerilogValue::Scalar(b) => seq![bit_char(b)],
        VerilogValue::Vector(bits) => match first_unknown(bits@) {
            Option::Some(u) => if u == Bit::X {
                seq!['X']
            } else {
                seq!['Z']
            },
            Option::None => dec_text(bits_unsigned(bits@)),
        },
    }
}

/// The hexadecimal rendering of a value: like [`spec_as_decimal`], but a
/// determinate vector prints as `0x`-prefixed lowercase hex.
pub open spec fn spec_as_hex(v: VerilogValue) -> Seq<char> {
    match v {
        VerilogValue::Scalar(b) => seq![bit_char(b)],
        VerilogValue::Vector(bits) => match first_unknown(bits@) {
            Option::Some(u) => if u == Bit::X {
                seq!['X']
            } else {
                seq!['Z']
            },
            Option::None => seq!['0', 'x'] + hex_text(bits_unsigned(bits@)),
        },
    }
}

/// What [`VerilogValue::format`] renders for each radix.
pub open spec fn spec_format(v: VerilogValue, d: DisplayType) -> Seq<char> {
    match d {
        DisplayType::Binary => bits_text(vv_bits(v)),
        DisplayType::Decimal => spec_as_decimal(v),
        DisplayType::Hex => spec_as_hex(v),
    }
}

/// The bit at LSB-relative position `j` of `value`'s binary expansion.
pub open spec fn nth_lsb_bit(value: nat, j: nat) -> Bit {
    if value / vstd::arithmetic::power2::pow2(j) % 2 == 1 {
        Bit::V1
    } else {
        Bit::V0
    }
}

/// The `size`-bit MSB-first binary expansion of `value`.
pub open spec fn from_unsigned_bits(value: nat, size: nat) -> Seq<Bit> {
    Seq::new(size, |i: int| nth_lsb_bit(value, (size - 1 - i) as nat))
}

/// What [`VerilogValue::from_usize`] builds: a single scalar when
/// `size == 1`, otherwise a `size`-bit vector.
pub open spec fn from_unsigned_view(value: nat, size: nat) -> ValueView {
    if size == 1 {
        ValueView::Scalar(nth_lsb_bit(value, 0))
    } else {
        ValueView::Vector(from_unsigned_bits(value, size))
    }
}

/// If none of the first `i` bits is unknown, the first unknown of the whole
/// sequence is the first unknown of the rest.
proof fn lemma_first_unknown_skip(bits: Seq<Bit>, i: int)
    requires
        0 <= i <= bits.len(),
        forall|j: int| 0 <= j < i ==> bits[j] != Bit::X && bits[j] != Bit::Z,
    ensures
        first_unknown(bits) == first_unknown(bits.skip(i)),
    decreases i,
{
    if i > 0 {
        lemma_first_unknown_skip(bits, i - 1);
        let rest = bits.skip(i - 1);
        assert(rest[0] == bits[i - 1]);
        assert(rest.skip(1) =~= bits.skip(i));
    } else {
        assert(bits.skip(0) =~= bits);
    }
}

/// An element-wise copy of a bit vector.
pub fn copy_bits(bits: &Vec<Bit>) -> (r: Vec<Bit>)
    ensures
        r@ == bits@,
{
    let mut out: Vec<Bit> = Vec::new();
    let mut i: usize = 0;
    while i < bits.len()
        invariant
            i <= bits@.len(),
            out@ =~= bits@.take(i as int),
        decreases bits.len() - i,
    {
        out.push(bits[i]);
        i = i + 1;
    }
    proof {
        assert(bits@.take(bits@.len() as int) =~= bits@);
    }
    out
}

impl VerilogValue {
    /// A deep copy whose abstraction is the same as this value's.
    pub fn duplicate(&self) -> (r: VerilogValue)
        ensures
            vv_view(r) == vv_view(*self),
    {
        match self {
            VerilogValue::Scalar(b) => VerilogValue::Scalar(*b),
            VerilogValue::Vector(bits) => VerilogValue::Vector(copy_bits(bits)),
        }
    }

    /// True only when every bit is logic high; the AND-reduction, not a
    /// nonzero test.
    pub fn is_high(&self) -> (r: bool)
        ensures
            r == all_bits(vv_bits(*self), Bit::V1),
    {
        self.all_bits_equal(Bit::V1)
    }

    /// True only when every bit is logic low.
    pub fn is_low(&self) -> (r: bool)
        ensures
            r == all_bits(vv_bits(*self), Bit::V0),
    {
        self.all_bits_equal(Bit::V0)
    }

    fn all_bits_equal(&self, target: Bit) -> (r: bool)
        ensures
            r == all_bits(vv_bits(*self), target),
    {
        match self {
            VerilogValue::Scalar(b) => {
                proof {
                    assert(vv_bits(*self)[0] == *b);
                }
                *b == target
            },
            VerilogValue::Vector(bits) => {
                let mut i: usize = 0;
                while i < bits.len()
                    invariant
                        i <= bits@.len(),
                        vv_bits(*self) == bits@,
                        forall|j: int| 0 <= j < i ==> bits@[j] == target,
                    decreases bits.len() - i,
                {
                    if bits[i] != target {
                        return false;
                    }
                    i = i + 1;
                }
                true
            },
        }
    }

    /// True when any bit is X or Z.
    pub fn is_unknown(&self) -> (r: bool)
        ensures
            r == has_unknown(vv_bits(*self)),
    {
        match self {
            VerilogValue::Scalar(b) => {
                proof {
                    assert(vv_bits(*self)[0] == *b);
                }
                matches!(b, Bit::X | Bit::Z)
            },
            VerilogValue::Vector(bits) => {
                let mut i: usize = 0;
                while i < bits.len()
                    invariant
                        i <= bits@.len(),
                        vv_bits(*self) == bits@,
                        forall|j: int| 0 <= j < i ==> bits@[j] != Bit::X && bits@[j] != Bit::Z,
                    decreases bits.len() - i,
                {
                    if matches!(bits[i], Bit::X | Bit::Z) {
                        return true;
                    }
                    i = i + 1;
                }
                false
            },
        }
    }

    /// The unsigned integer the bits spell MSB-first, with unknown bits
    /// read as 0; callers accept that reading when they use this.
    pub fn as_usize(&self) -> (r: usize)
        requires
            vv_bits(*self).len() <= 64,
            bits_unsigned(vv_bits(*self)) <= usize::MAX,
        ensures
            r == bits_unsigned(vv_bits(*self)),
    {
        match self {
            VerilogValue::Scalar(b) => {
                proof {
                    let s = vv_bits(*self);
                    assert(s.drop_last() =~= Seq::<Bit>::empty());
                    assert(s.last() == *b);
                    assert(bits_unsigned(Seq::<Bit>::empty()) == 0);
                    assert(bits_unsigned(s) == bit_weight(*b));
                }
                if matches!(b, Bit::V1) {
                    1
                } else {
                    0
                }
            },
            VerilogValue::Vector(bits) => {
                let mut acc: u64 = 0;
                let mut k: usize = 0;
                while k < bits.len()
                    invariant
                        k <= bits@.len() <= 64,
                        acc == bits_unsigned(bits@.take(k as int)),
                    decreases bits.len() - k,
                {
                    proof {
                        lemma_bits_unsigned_bound(bits@.take(k as int));
                        vstd::arithmetic::power2::lemma2_to64();
                        vstd::arithmetic::power2::lemma2_to64_rest();
                        if (k as nat) < 63 {
                            vstd::arithmetic::power2::lemma_pow2_strictly_increases(k as nat, 63);
                        }
                        assert(bits@.take(k + 1).drop_last() =~= bits@.take(k as int));
                        assert(bits@.take(k + 1).last() == bits@[k as int]);
                    }
                    let w: u64 = if matches!(bits[k], Bit::V1) {
                        1
                    } else {
                        0
                    };
                    acc = acc * 2 + w;
                    k = k + 1;
                }
                proof {
                    assert(bits@.take(bits@.len() as int) =~= bits@);
                    assert(acc == bits_unsigned(vv_bits(*self)));
                    assert(acc <= usize::MAX);
                }
                acc as usize
            },
        }
    }

    /// Renders the value in lowercase `0x`-prefixed hexadecimal, or the
    /// first unknown symbol when any bit is X or Z.
    pub fn as_hex(&self) -> (r: String)
        requires
            self.numeric_in_range(),
        ensures
            r@ == spec_as_hex(*self),
    {
        proof {
            reveal_strlit("X");
            reveal_strlit("Z");
        }
        match self {
            VerilogValue::Scalar(b) => bit_str(*b).to_owned(),
            VerilogValue::Vector(bits) => match scan_vector(bits) {
                Scan::Unknown(b) => {
                    if matches!(b, Bit::X) {
                        "X".to_owned()
                    } else {
                        "Z".to_owned()
                    }
                },
                Scan::Value(n) => u64_to_hex_prefixed(n),
            },
        }
    }

    /// Renders the value in decimal, or the first unknown symbol when any
    /// bit is X or Z.
    pub fn as_decimal(&self) -> (r: String)
        requires
            self.numeric_in_range(),
        ensures
            r@ == spec_as_decimal(*self),
    {
        proof {
            reveal_strlit("X");
            reveal_strlit("Z");
        }
        match self {
            VerilogValue::Scalar(b) => bit_str(*b).to_owned(),
            VerilogValue::Vector(bits) => match scan_vector(bits) {
                Scan::Unknown(b) => {
                    if matches!(b, Bit::X) {
                        "X".to_owned()
                    } else {
                        "Z".to_owned()
                    }
                },
                Scan::Value(n) => u64_to_dec(n),
            },
        }
    }

    /// Renders the value in the requested radix.
    pub fn format(&self, display_type: &DisplayType) -> (r: String)
        requires
            *display_type != DisplayType::Binary ==> self.numeric_in_range(),
        ensures
            r@ == spec_format(*self, *display_type),
    {
        match display_type {
            DisplayType::Binary => self.as_binary(),
            DisplayType::Decimal => self.as_decimal(),
            DisplayType::Hex => self.as_hex(),
        }
    }

    /// Builds the `size`-bit MSB-first representation of `value`: a scalar
    /// when `size == 1`, a vector otherwise.
    pub fn from_usize(value: usize, size: usize) -> (r: VerilogValue)
        ensures
            vv_view(r) == from_unsigned_view(value as nat, size as nat),
    {
        proof {
            vstd::arithmetic::power2::lemma2_to64();
        }
        if size == 1 {
            if value % 2 == 1 {
                VerilogValue::Scalar(Bit::V1)
            } else {
                VerilogValue::Scalar(Bit::V0)
            }
        } else {
            let mut lsb: Vec<Bit> = Vec::new();
            let mut cur: usize = value;
            let mut k: usize = 0;
            while k < size
                invariant
                    k <= size,
                    lsb@.len() == k,
                    cur == value as nat / vstd::arithmetic::power2::pow2(k as nat),
                    forall|j: int| 0 <= j < k ==> lsb@[j] == nth_lsb_bit(value as nat, j as nat),
                decreases size - k,
            {
                proof {
                    vstd::arithmetic::power2::lemma_pow2_unfold((k + 1) as nat);
                    vstd::arithmetic::power2::lemma_pow2_pos(k as nat);
                    vstd::arithmetic::div_mod::lemma_div_denominator(
                        value as int,
                        vstd::arithmetic::power2::pow2(k as nat) as int,
                        2,
                    );
                }
                if cur % 2 == 1 {
                    lsb.push(Bit::V1);
                } else {
                    lsb.push(Bit::V0);
                }
                cur = cur / 2;
                k = k + 1;
            }
            let mut out: Vec<Bit> = Vec::new();
            let mut j: usize = lsb.len();
            while j > 0
                invariant
                    j <= lsb@.len() == size,
                    out@.len() == size - j,
                    forall|i: int| 0 <= i < out@.len() ==> out@[i] == lsb@[size - 1 - i],
                    forall|i: int| 0 <= i < size ==> lsb@[i] == nth_lsb_bit(value as nat, i as nat),
                decreases j,
            {
                j = j - 1;
                out.push(lsb[j]);
            }
            proof {
                assert(out@ =~= from_unsigned_bits(value as nat, size as nat));
            }
            VerilogValue::Vector(out)
        }
    }

    /// The concatenation of this value's bits with `rhs`'s bits, always as
    /// a vector; scalars promote to single-bit vectors.
    pub fn concat(&self, rhs: &VerilogValue) -> (r: VerilogValue)
        ensures
            vv_view(r) == ValueView::Vector(vv_bits(*self) + vv_bits(*rhs)),
    {
        let mut out: Vec<Bit> = Vec::new();
        push_bits(&mut out, self);
        push_bits(&mut out, rhs);
        proof {
            assert(out@ =~= vv_bits(*self) + vv_bits(*rhs));
        }
        VerilogValue::Vector(out)
    }
}

fn push_bits(out: &mut Vec<Bit>, v: &VerilogValue)
    ensures
        final(out)@ == old(out)@ + vv_bits(*v),
{
    match v {
        VerilogValue::Scalar(b) => {
            out.push(*b);
            proof {
                assert(out@ =~= old(out)@ + vv_bits(*v));
            }
        },
        VerilogValue::Vector(bits) => {
            let mut i: usize = 0;
            while i < bits.len()
                invariant
                    i <= bits@.len(),
                    out@ =~= old(out)@ + bits@.take(i as int),
                decreases bits.len() - i,
            {
                out.push(bits[i]);
                proof {
                    assert(old(out)@ + bits@.take(i + 1) =~= (old(out)@ + bits@.take(i as int)).push(
                        bits@[i as int],
                    ));
                }
                i = i + 1;
            }
            proof {
                assert(bits@.take(bits@.len() as int) =~= bits@);
            }
        },
    }
}

enum Scan {
    Unknown(Bit),
    Value(u64),
}

/// Scans a vector MSB-first: yields the first unknown bit, or the unsigned
/// integer the bits spell.
fn scan_vector(bits: &Vec<Bit>) -> (r: Scan)
    requires
        has_unknown(bits@) || bits@.len() <= 64,
    ensures
        match r {
            Scan::Unknown(b) => first_unknown(bits@) == Option::<Bit>::Some(b) && (b == Bit::X || b
                == Bit::Z),
            Scan::Value(n) => first_unknown(bits@) is None && n == bits_unsigned(bits@),
        },
{
    let mut i: usize = 0;
    while i < bits.len()
        invariant
            i <= bits@.len(),
            forall|j: int| 0 <= j < i ==> bits@[j] != Bit::X && bits@[j] != Bit::Z,
            has_unknown(bits@) || bits@.len() <= 64,
        decreases bits.len() - i,
    {
        let b = bits[i];
        if matches!(b, Bit::X | Bit::Z) {
            proof {
                lemma_first_unknown_skip(bits@, i as int);
                assert(bits@.skip(i as int)[0] == bits@[i as int]);
            }
            return Scan::Unknown(b);
        }
        i = i + 1;
    }
    proof {
        lemma_first_unknown_skip(bits@, bits@.len() as int);
        assert(bits@.skip(bits@.len() as int) =~= Seq::<Bit>::empty());
        lemma_first_unknown_some(bits@);
        assert(!has_unknown(bits@));
    }
    let mut acc: u64 = 0;
    let mut k: usize = 0;
    while k < bits.len()
        invariant
            k <= bits@.len() <= 64,
            acc == bits_unsigned(bits@.take(k as int)),
        decreases bits.len() - k,
    {
        proof {
            lemma_bits_unsigned_bound(bits@.take(k as int));
            vstd::arithmetic::power2::lemma2_to64();
            vstd::arithmetic::power2::lemma2_to64_rest();
            if (k as nat) < 63 {
                vstd::arithmetic::power2::lemma_pow2_strictly_increases(k as nat, 63);
            }
            assert(bits@.take(k + 1).drop_last() =~= bits@.take(k as int));
            assert(bits@.take(k + 1).last() == bits@[k as int]);
        }
        let w: u64 = if matches!(bits[k], Bit::V1) {
            1
        } else {
            0
        };
        acc = acc * 2 + w;
        k = k + 1;
    }
    proof {
        assert(bits@.take(bits@.len() as int) =~= bits@);
    }
    Scan::Value(acc)
}

fn bit_str(b: Bit) -> (s: &'static str)
    ensures
        s@ =~= seq![bit_char(b)],
{
    proof {
        reveal_strlit("0");
        reveal_strlit("1");
        reveal_strlit("x");
        reveal_strlit("z");
    }
    match b {
        Bit::V0 => "0",
        Bit::V1 => "1",
        Bit::X => "x",
        Bit::Z => "z",
    }
}

} // verus!
