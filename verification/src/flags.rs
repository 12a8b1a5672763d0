//! Flag sets: collections of single-bit variants, and their form as one integer.

use vstd::prelude::*;
use vstd::std_specs::convert::FromSpecImpl;

use crate::err::LibcryptErr;

verus! {

/// A variant that stands for one bit of a native flag word.
pub trait NativeFlag: Copy {
    /// The position of the variant's bit in the flag word.
    spec fn position(self) -> u32;

    /// Gives the native constant of the variant.
    fn to_native(self) -> (r: u32)
        ensures
            r == 1u32 << self.position(),
    ;

    /// Finds the variant of a native constant. Fails with a conversion error exactly when
    /// no variant has that constant.
    fn from_native(v: u32) -> (r: Result<Self, LibcryptErr>)
        ensures
            match r {
                Ok(f) => 1u32 << f.position() == v,
                Err(e) => e is InvalidConversion && forall|f: Self|
                    1u32 << #[trigger] f.position() != v,
            },
    ;

    /// Every position lies inside the flag word.
    proof fn lemma_position_in_word(self)
        ensures
            self.position() < 32,
    ;

    /// Two variants with one position are one variant.
    proof fn lemma_position_injective(self, other: Self)
        requires
            self.position() == other.position(),
        ensures
            self == other,
    ;
}

/// The native constant of a variant: the word with only the variant's bit set.
pub open spec fn native_of<F: NativeFlag>(f: F) -> u32 {
    1u32 << f.position()
}

/// True when some variant of `F` has the native constant `v`.
pub open spec fn known<F: NativeFlag>(v: u32) -> bool {
    exists|f: F| 1u32 << #[trigger] f.position() == v
}

/// The variant that a native constant stands for: the one with that constant, or a
/// conversion error where there is none.
pub open spec fn variant_of<F: NativeFlag>(v: u32) -> Result<F, LibcryptErr> {
    if known::<F>(v) {
        Ok(choose|f: F| 1u32 << #[trigger] f.position() == v)
    } else {
        Err(LibcryptErr::InvalidConversion)
    }
}

/// True when the bit at position `k` is set in `v`.
pub open spec fn bit_set(v: u32, k: u32) -> bool {
    v & (1u32 << k) == (1u32 << k)
}

/// The integer form of a collection of variants: the bitwise union of their constants.
pub open spec fn union_of<F: NativeFlag>(s: Seq<F>) -> u32
    decreases s.len(),
{
    if s.len() == 0 {
        0
    } else {
        union_of(s.drop_last()) | native_of(s.last())
    }
}

/// True when every bit that is set in `v` belongs to a variant of `F`.
pub open spec fn decodable<F: NativeFlag>(v: u32) -> bool {
    forall|k: u32| k < 32 && #[trigger] bit_set(v, k) ==> known::<F>(1u32 << k)
}

/// The variant whose bit is at position `k`, where there is one.
pub open spec fn flag_at<F: NativeFlag>(k: u32) -> F {
    choose|f: F| 1u32 << #[trigger] f.position() == 1u32 << k
}

/// The variants whose bits are set in `v` at the positions below `n`, by rising position.
pub open spec fn flags_below<F: NativeFlag>(v: u32, n: nat) -> Seq<F>
    decreases n,
{
    if n == 0 {
        Seq::empty()
    } else {
        let k = (n - 1) as u32;
        if bit_set(v, k) {
            flags_below::<F>(v, (n - 1) as nat).push(flag_at::<F>(k))
        } else {
            flags_below::<F>(v, (n - 1) as nat)
        }
    }
}

/// What decoding the flag word `v` gives: the variants of its set bits by rising position,
/// or nothing where a set bit belongs to no variant.
pub open spec fn decode_spec<F: NativeFlag>(v: u32) -> Option<Seq<F>> {
    if decodable::<F>(v) {
        Some(flags_below::<F>(v, 32))
    } else {
        None
    }
}

proof fn lemma_shift_injective(j: u32, k: u32)
    by (bit_vector)
    requires
        j < 32,
        k < 32,
        1u32 << j == 1u32 << k,
    ensures
        j == k,
{
}

proof fn lemma_bit_of_zero(k: u32)
    by (bit_vector)
    requires
        k < 32,
    ensures
        0u32 & (1u32 << k) != (1u32 << k),
{
}

proof fn lemma_bit_of_union(x: u32, j: u32, k: u32)
    by (bit_vector)
    requires
        j < 32,
        k < 32,
    ensures
        ((x | (1u32 << j)) & (1u32 << k) == (1u32 << k)) <==> ((x & (1u32 << k) == (1u32 << k))
            || j == k),
{
}

/// The constant of a variant stands for that variant and for no other.
pub proof fn lemma_variant_of<F: NativeFlag>(f: F)
    ensures
        variant_of::<F>(native_of(f)) == Ok::<F, LibcryptErr>(f),
{
    assert(known::<F>(native_of(f)));
    let g = choose|g: F| 1u32 << #[trigger] g.position() == native_of(f);
    f.lemma_position_in_word();
    g.lemma_position_in_word();
    lemma_shift_injective(g.position(), f.position());
    g.lemma_position_injective(f);
}

/// The variant found at the position of a variant is that variant.
pub proof fn lemma_flag_at<F: NativeFlag>(f: F)
    ensures
        flag_at::<F>(f.position()) == f,
        known::<F>(1u32 << f.position()),
{
    let g = flag_at::<F>(f.position());
    assert(native_of(f) == 1u32 << f.position());
    assert(native_of(g) == 1u32 << f.position());
    f.lemma_position_in_word();
    g.lemma_position_in_word();
    lemma_shift_injective(g.position(), f.position());
    g.lemma_position_injective(f);
}

/// The union of a collection has the bit at position `k` exactly when a member of the
/// collection has that position.
pub proof fn lemma_union_bit<F: NativeFlag>(s: Seq<F>, k: u32)
    requires
        k < 32,
    ensures
        bit_set(union_of(s), k) <==> exists|i: int| 0 <= i < s.len() && #[trigger] s[i].position() == k,
    decreases s.len(),
{
    if s.len() == 0 {
        lemma_bit_of_zero(k);
    } else {
        let rest = s.drop_last();
        lemma_union_bit(rest, k);
        s.last().lemma_position_in_word();
        lemma_bit_of_union(union_of(rest), s.last().position(), k);
        if bit_set(union_of(s), k) {
            if s.last().position() == k {
                assert(s[s.len() - 1].position() == k);
            } else {
                let i = choose|i: int| 0 <= i < rest.len() && #[trigger] rest[i].position() == k;
                assert(s[i].position() == k);
            }
        }
        if exists|i: int| 0 <= i < s.len() && #[trigger] s[i].position() == k {
            let i = choose|i: int| 0 <= i < s.len() && #[trigger] s[i].position() == k;
            if i < s.len() - 1 {
                assert(rest[i].position() == k);
            }
        }
    }
}

/// Membership in the variants decoded below a position: a variant is among them exactly
/// when its bit is set and lies below that position.
pub proof fn lemma_flags_below_contains<F: NativeFlag>(v: u32, n: nat, f: F)
    requires
        n <= 32,
        decodable::<F>(v),
    ensures
        flags_below::<F>(v, n).contains(f) <==> (bit_set(v, f.position()) && f.position() < n),
    decreases n,
{
    f.lemma_position_in_word();
    lemma_flag_at(f);
    if n == 0 {
    } else {
        let k = (n - 1) as u32;
        let rest = flags_below::<F>(v, (n - 1) as nat);
        lemma_flags_below_contains::<F>(v, (n - 1) as nat, f);
        if bit_set(v, k) {
            let g = flag_at::<F>(k);
            let s = rest.push(g);
            assert(known::<F>(1u32 << k));
            assert(native_of(g) == 1u32 << k);
            g.lemma_position_in_word();
            lemma_shift_injective(g.position(), k);
            if s.contains(f) {
                let i = choose|i: int| 0 <= i < s.len() && s[i] == f;
                if i < rest.len() {
                    assert(rest[i] == f);
                    assert(rest.contains(f));
                }
            }
            if bit_set(v, f.position()) && f.position() < n {
                if f.position() == k {
                    assert(s[rest.len() as int] == f);
                } else {
                    let i = choose|i: int| 0 <= i < rest.len() && rest[i] == f;
                    assert(s[i] == f);
                }
            }
        }
    }
}

/// Decoding the integer form of a collection of variants gives back the variants of the
/// collection, each once, whatever the order and the repetitions in the collection.
pub proof fn lemma_decode_encode<F: NativeFlag>(s: Seq<F>)
    ensures
        decode_spec::<F>(union_of(s)) is Some,
        decode_spec::<F>(union_of(s))->0.to_set() == s.to_set(),
{
    let v = union_of(s);
    assert forall|k: u32| k < 32 && #[trigger] bit_set(v, k) implies known::<F>(1u32 << k) by {
        lemma_union_bit(s, k);
        let i = choose|i: int| 0 <= i < s.len() && #[trigger] s[i].position() == k;
        assert(native_of(s[i]) == 1u32 << k);
    }
    let d = flags_below::<F>(v, 32);
    assert forall|f: F| d.to_set().contains(f) <==> s.to_set().contains(f) by {
        f.lemma_position_in_word();
        lemma_flags_below_contains::<F>(v, 32, f);
        lemma_union_bit(s, f.position());
        if d.contains(f) {
            let i = choose|i: int| 0 <= i < s.len() && #[trigger] s[i].position() == f.position();
            s[i].lemma_position_injective(f);
            assert(s.contains(f));
        }
        if s.contains(f) {
            let i = choose|i: int| 0 <= i < s.len() && s[i] == f;
            assert(s[i].position() == f.position());
        }
    }
    assert(d.to_set() =~= s.to_set());
}

/// The bits of `v` at the positions below `n`.
pub open spec fn low_bits(v: u32, n: nat) -> u32 {
    if n >= 32 {
        v
    } else {
        v & !(0xffff_ffffu32 << (n as u32))
    }
}

proof fn lemma_low_bits_step(v: u32, k: u32)
    by (bit_vector)
    requires
        k < 31,
    ensures
        v & (1u32 << k) == (1u32 << k) ==> v & !(0xffff_ffffu32 << ((k + 1) as u32)) == (v & !(
        0xffff_ffffu32 << k)) | (1u32 << k),
        v & (1u32 << k) != (1u32 << k) ==> v & !(0xffff_ffffu32 << ((k + 1) as u32)) == v & !(
        0xffff_ffffu32 << k),
{
}

proof fn lemma_low_bits_last(v: u32)
    by (bit_vector)
    ensures
        v & (1u32 << 31u32) == (1u32 << 31u32) ==> v == (v & !(0xffff_ffffu32 << 31u32)) | (1u32
            << 31u32),
        v & (1u32 << 31u32) != (1u32 << 31u32) ==> v == v & !(0xffff_ffffu32 << 31u32),
        v & !(0xffff_ffffu32 << 0u32) == 0,
{
}

/// The variants decoded below a position encode to the bits below that position.
pub proof fn lemma_union_of_flags_below<F: NativeFlag>(v: u32, n: nat)
    requires
        n <= 32,
        decodable::<F>(v),
    ensures
        union_of(flags_below::<F>(v, n)) == low_bits(v, n),
    decreases n,
{
    lemma_low_bits_last(v);
    if n > 0 {
        let k = (n - 1) as u32;
        let rest = flags_below::<F>(v, (n - 1) as nat);
        lemma_union_of_flags_below::<F>(v, (n - 1) as nat);
        if k < 31 {
            lemma_low_bits_step(v, k);
        }
        if bit_set(v, k) {
            let g = flag_at::<F>(k);
            assert(known::<F>(1u32 << k));
            assert(native_of(g) == 1u32 << k);
            let s = rest.push(g);
            assert(s.drop_last() =~= rest);
            assert(s.last() == g);
        }
    }
}

/// Encoding the variants that a flag word decodes to gives back the flag word.
pub proof fn lemma_encode_decode<F: NativeFlag>(v: u32)
    requires
        decode_spec::<F>(v) is Some,
    ensures
        union_of(decode_spec::<F>(v)->0) == v,
{
    lemma_union_of_flags_below::<F>(v, 32);
}

/// A set of flags, held as a collection of variants.
#[derive(Debug)]
pub struct FlagSet<F: NativeFlag>(pub Vec<F>);

impl<F: NativeFlag> View for FlagSet<F> {
    type V = Seq<F>;

    open spec fn view(&self) -> Seq<F> {
        self.0@
    }
}

impl<F: NativeFlag> FlagSet<F> {
    /// Creates a set of flags from a collection of variants.
    pub fn new(vec: Vec<F>) -> (r: Self)
        ensures
            r@ == vec@,
    {
        FlagSet(vec)
    }

    /// Creates the set without flags.
    pub fn empty() -> (r: Self)
        ensures
            r@ == Seq::<F>::empty(),
    {
        FlagSet(Vec::new())
    }

    /// Encodes the set as one flag word: the bitwise union of the variants' constants. The
    /// empty set gives zero.
    pub fn bits(&self) -> (r: u32)
        ensures
            r == union_of(self@),
    {
        let mut acc: u32 = 0;
        let mut i: usize = 0;
        while i < self.0.len()
            invariant
                i <= self.0.len(),
                acc == union_of(self@.subrange(0, i as int)),
            decreases self.0.len() - i,
        {
            let bit: u32 = self.0[i].to_native();
            proof {
                let next = self@.subrange(0, i + 1);
                assert(next.drop_last() == self@.subrange(0, i as int));
                assert(next.last() == self@[i as int]);
            }
            acc = acc | bit;
            i += 1;
        }
        proof {
            assert(self@.subrange(0, i as int) == self@);
        }
        acc
    }

    /// Decodes a flag word. Every bit position of the word is looked at in rising order; a
    /// set bit that belongs to a variant adds that variant, and a set bit that belongs to
    /// none makes the decoding fail with a conversion error. Zero gives the empty set.
    pub fn try_from(v: u32) -> (r: Result<Self, LibcryptErr>)
        ensures
            match r {
                Ok(flags) => decode_spec::<F>(v) == Some(flags@),
                Err(e) => e is InvalidConversion && decode_spec::<F>(v) is None,
            },
    {
        let mut vec: Vec<F> = Vec::new();
        let mut i: u32 = 0;
        while i < 32
            invariant
                i <= 32,
                vec@ == flags_below::<F>(v, i as nat),
                forall|k: u32| k < i && #[trigger] bit_set(v, k) ==> known::<F>(1u32 << k),
            decreases 32 - i,
        {
            let bit: u32 = 1u32 << i;
            if v & bit == bit {
                match F::from_native(bit) {
                    Ok(f) => {
                        proof {
                            assert(native_of(f) == 1u32 << i);
                            f.lemma_position_in_word();
                            lemma_shift_injective(f.position(), i);
                            lemma_flag_at(f);
                        }
                        vec.push(f);
                    },
                    Err(e) => {
                        assert(bit_set(v, i));
                        return Err(e);
                    },
                }
            }
            i += 1;
        }
        Ok(FlagSet(vec))
    }
}

impl<F: NativeFlag> From<FlagSet<F>> for u32 {
    fn from(flags: FlagSet<F>) -> (r: u32) {
        flags.bits()
    }
}

impl<F: NativeFlag> FromSpecImpl<FlagSet<F>> for u32 {
    open spec fn obeys_from_spec() -> bool {
        true
    }

    open spec fn from_spec(flags: FlagSet<F>) -> u32 {
        union_of(flags@)
    }
}

impl<'a, F: NativeFlag> From<&'a FlagSet<F>> for u32 {
    fn from(flags: &'a FlagSet<F>) -> (r: u32) {
        flags.bits()
    }
}

impl<'a, F: NativeFlag> FromSpecImpl<&'a FlagSet<F>> for u32 {
    open spec fn obeys_from_spec() -> bool {
        true
    }

    open spec fn from_spec(flags: &'a FlagSet<F>) -> u32 {
        union_of(flags@)
    }
}

} // verus!
