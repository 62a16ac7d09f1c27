//! The remaining length: a base-128 variable-byte integer of one to four
//! bytes, least significant group first. Bit 7 of each byte says whether
//! another byte follows; bits 6 to 0 hold one base-128 digit.
use crate::error::ParseError;
use vstd::prelude::*;

verus! {

/// The largest value that four bytes can hold: `128^4 - 1`.
pub const MAX_REMAINING_LENGTH: u32 = 268_435_455;

/// The largest number of bytes that the field may occupy.
pub const MAX_ENCODED_BYTES: usize = 4;

/// Whether the byte announces that another byte of the field follows.
pub open spec fn has_continuation(b: u8) -> bool {
    b >= 128
}

/// The base-128 digit that the byte carries in its low seven bits.
pub open spec fn digit(b: u8) -> nat {
    (b % 128) as nat
}

/// `128^i`: the weight of the digit at position `i`.
spec fn weight(i: nat) -> nat
    decreases i,
{
    if i == 0 {
        1
    } else {
        128 * weight((i - 1) as nat)
    }
}

/// The number that a sequence of bytes stands for when each byte contributes
/// its digit, least significant first. Continuation bits are ignored.
pub open spec fn digits_value(s: Seq<u8>) -> nat
    decreases s.len(),
{
    if s.len() == 0 {
        0
    } else {
        digit(s[0]) + 128 * digits_value(s.drop_first())
    }
}

/// The wire form of `v` with no byte more than needed: every byte but the
/// last has its continuation bit set.
pub open spec fn encoding(v: nat) -> Seq<u8>
    decreases v,
{
    if v < 128 {
        seq![v as u8]
    } else {
        seq![(128 + v % 128) as u8] + encoding(v / 128)
    }
}

/// The number of bytes that a value up to [`MAX_REMAINING_LENGTH`] needs.
pub open spec fn encoded_len(v: nat) -> nat {
    if v < 128 {
        1
    } else if v < 16_384 {
        2
    } else if v < 2_097_152 {
        3
    } else {
        4
    }
}

/// How many bytes at the start of `s` have their continuation bit set, one
/// after the other, looking at no more than the first four.
pub open spec fn continuation_run(s: Seq<u8>) -> nat {
    if !(s.len() > 0 && has_continuation(s[0])) {
        0
    } else if !(s.len() > 1 && has_continuation(s[1])) {
        1
    } else if !(s.len() > 2 && has_continuation(s[2])) {
        2
    } else if !(s.len() > 3 && has_continuation(s[3])) {
        3
    } else {
        4
    }
}

/// What a remaining length holds: the value, the number of bytes that stand
/// for it on the wire, and those bytes.
pub struct RemainingLengthView {
    pub value: nat,
    pub encoded_byte_count: nat,
    pub raw_bytes: Seq<u8>,
}

impl RemainingLengthView {
    /// The remaining length with the value `v` in its minimal encoding.
    pub open spec fn of_value(v: nat) -> RemainingLengthView
        recommends
            v <= MAX_REMAINING_LENGTH,
    {
        RemainingLengthView { value: v, encoded_byte_count: encoded_len(v), raw_bytes: encoding(v) }
    }
}

/// What decoding the field at the start of `s` gives: the field with its
/// value, or the reason why there is no valid field there.
///
/// The field ends with the first byte whose continuation bit is clear. If the
/// first four bytes all have it set, the field is malformed. If `s` ends before
/// such a byte is found, the input is truncated. If the field has more than one
/// byte and its last byte is zero, a shorter field would have held the same
/// value, and the encoding is refused as not minimal. Otherwise the value is
/// the number that the digits of the field stand for.
pub open spec fn decoded(s: Seq<u8>) -> Result<RemainingLengthView, ParseError> {
    let run = continuation_run(s);
    if run >= 4 {
        Err(ParseError::MalformedRemainingLength)
    } else if s.len() <= run {
        Err(ParseError::TruncatedInput)
    } else if run > 0 && s[run as int] == 0 {
        Err(ParseError::NonMinimalEncoding)
    } else {
        let field = s.take((run + 1) as int);
        Ok(
            RemainingLengthView {
                value: digits_value(field),
                encoded_byte_count: run + 1,
                raw_bytes: field,
            },
        )
    }
}

/// A decoded or encoded remaining length: the value together with the bytes
/// that stand for it on the wire.
///
/// A value of this type always holds the minimal encoding of a value that fits
/// four bytes, so the value alone determines the other two fields.
#[derive(Debug, PartialEq, Eq, PartialOrd, Ord)]
pub struct RemainingLength {
    value: u32,
    encoded_byte_count: usize,
    raw_bytes: Vec<u8>,
}

impl View for RemainingLength {
    type V = RemainingLengthView;

    closed spec fn view(&self) -> RemainingLengthView {
        RemainingLengthView {
            value: self.value as nat,
            encoded_byte_count: self.encoded_byte_count as nat,
            raw_bytes: self.raw_bytes@,
        }
    }
}

impl RemainingLength {
    #[verifier::type_invariant]
    spec fn well_formed(&self) -> bool {
        &&& self.value <= MAX_REMAINING_LENGTH
        &&& self.raw_bytes@ == encoding(self.value as nat)
        &&& self.encoded_byte_count == self.raw_bytes@.len()
    }

    /// Encodes `value` in as few bytes as it needs. Values above
    /// [`MAX_REMAINING_LENGTH`] are refused with `ValueTooLarge`.
    pub fn encode(value: u32) -> (r: Result<RemainingLength, ParseError>)
        ensures
            value <= MAX_REMAINING_LENGTH ==> r is Ok && r->Ok_0@ == RemainingLengthView::of_value(
                value as nat,
            ),
            value > MAX_REMAINING_LENGTH ==> r == Err::<RemainingLength, ParseError>(
                ParseError::ValueTooLarge,
            ),
    {
        if value > MAX_REMAINING_LENGTH {
            return Err(ParseError::ValueTooLarge);
        }
        let mut raw: Vec<u8> = Vec::new();
        let mut rest: u32 = value;
        while rest >= 128
            invariant
                encoding(value as nat) == raw@ + encoding(rest as nat),
            decreases rest,
        {
            let low: u8 = (rest % 128) as u8;
            let ghost before = raw@;
            assert(low | 0x80 == 128 + low) by (bit_vector)
                requires
                    low < 128,
            ;
            raw.push(low | 0x80);
            rest = rest / 128;
            assert(raw@ + encoding(rest as nat) =~= before + (seq![(128 + low) as u8] + encoding(
                rest as nat,
            )));
        }
        let ghost before = raw@;
        raw.push(rest as u8);
        proof {
            assert(raw@ =~= before + encoding(rest as nat));
            lemma_encoding_len(value as nat);
        }
        Ok(RemainingLength { value, encoded_byte_count: raw.len(), raw_bytes: raw })
    }

    /// Decodes the field at the start of `bytes`. Bytes after the field are
    /// not looked at.
    pub fn decode(bytes: &[u8]) -> (r: Result<RemainingLength, ParseError>)
        ensures
            r is Ok ==> decoded(bytes@) == Ok::<RemainingLengthView, ParseError>(r->Ok_0@),
            r is Err ==> decoded(bytes@) == Err::<RemainingLengthView, ParseError>(r->Err_0),
    {
        let mut value: u32 = 0;
        let mut multiplier: u32 = 1;
        let mut raw: Vec<u8> = Vec::new();
        let mut i: usize = 0;
        while i < MAX_ENCODED_BYTES
            invariant
                i <= MAX_ENCODED_BYTES,
                i <= bytes@.len(),
                forall|j: int| 0 <= j < i ==> has_continuation(#[trigger] bytes@[j]),
                value == digits_value(bytes@.take(i as int)),
                multiplier == weight(i as nat),
                raw@ == bytes@.take(i as int),
            decreases MAX_ENCODED_BYTES - i,
        {
            if i >= bytes.len() {
                return Err(ParseError::TruncatedInput);
            }
            let b: u8 = bytes[i];
            let d: u32 = (b & 0x7F) as u32;
            proof {
                let seen = bytes@.take(i as int);
                assert(b & 0x7F == b % 128) by (bit_vector);
                assert((b & 0x80 == 0) == (b < 128)) by (bit_vector);
                lemma_weights();
                lemma_digits_value_push(seen, b);
                assert(seen.push(b) =~= bytes@.take(i + 1));
                assert(d * multiplier <= 127 * 2_097_152) by (nonlinear_arith)
                    requires
                        d <= 127,
                        multiplier <= 2_097_152,
                ;
                lemma_digits_value_bound(bytes@.take(i + 1));
            }
            value = value + d * multiplier;
            raw.push(b);
            if b & 0x80 == 0 {
                if i > 0 && b == 0 {
                    return Err(ParseError::NonMinimalEncoding);
                }
                proof {
                    let field = bytes@.take(i + 1);
                    assert(is_minimal_field(field));
                    lemma_minimal_field_is_encoding(field);
                }
                return Ok(RemainingLength { value, encoded_byte_count: i + 1, raw_bytes: raw });
            }
            multiplier = multiplier * 128;
            i = i + 1;
        }
        Err(ParseError::MalformedRemainingLength)
    }

    /// The value: the number of bytes that follow the fixed header. With it
    /// comes what holds of every remaining length: the value fits four bytes,
    /// and the bytes are its minimal encoding.
    pub fn value(&self) -> (v: u32)
        ensures
            v == self@.value,
            v <= MAX_REMAINING_LENGTH,
            self@ == RemainingLengthView::of_value(v as nat),
    {
        proof {
            use_type_invariant(self);
            lemma_encoding_len(self.value as nat);
        }
        self.value
    }

    /// The number of bytes that the field occupies on the wire.
    pub fn encoded_byte_count(&self) -> (n: usize)
        ensures
            n == self@.encoded_byte_count,
            n == encoded_len(self@.value),
            1 <= n <= MAX_ENCODED_BYTES,
    {
        proof {
            use_type_invariant(self);
            lemma_encoding_len(self.value as nat);
        }
        self.encoded_byte_count
    }

    /// The bytes of the field as they stand on the wire.
    pub fn raw_bytes(&self) -> (bytes: &[u8])
        ensures
            bytes@ == self@.raw_bytes,
            bytes@ == encoding(self@.value),
    {
        proof {
            use_type_invariant(self);
        }
        self.raw_bytes.as_slice()
    }
}

/// The weights of the four digit positions, and the first weight that no
/// field can reach.
proof fn lemma_weights()
    ensures
        weight(0) == 1,
        weight(1) == 128,
        weight(2) == 16_384,
        weight(3) == 2_097_152,
        weight(4) == 268_435_456,
{
    reveal_with_fuel(weight, 5);
}

/// A digit appended at the end counts with the weight of its position.
proof fn lemma_digits_value_push(s: Seq<u8>, b: u8)
    ensures
        digits_value(s.push(b)) == digits_value(s) + digit(b) * weight(s.len()),
    decreases s.len(),
{
    let t = s.push(b);
    if s.len() == 0 {
        assert(digits_value(t.drop_first()) == 0);
        assert(digit(b) * weight(0) == digit(b)) by (nonlinear_arith)
            requires
                weight(0) == 1,
        ;
    } else {
        let rest = s.drop_first();
        assert(t.drop_first() =~= rest.push(b));
        lemma_digits_value_push(rest, b);
        let d = digit(b);
        let w = weight(rest.len());
        assert(128 * (d * w) == d * (128 * w)) by (nonlinear_arith);
    }
}

/// A sequence of `n` digits stands for a number below `128^n`.
proof fn lemma_digits_value_bound(s: Seq<u8>)
    ensures
        digits_value(s) < weight(s.len()),
    decreases s.len(),
{
    if s.len() > 0 {
        lemma_digits_value_bound(s.drop_first());
    }
}

/// Reading the digits of an encoding gives the encoded value back.
pub proof fn lemma_digits_of_encoding(v: nat)
    ensures
        digits_value(encoding(v)) == v,
    decreases v,
{
    if v >= 128 {
        lemma_digits_of_encoding(v / 128);
        assert(encoding(v).drop_first() =~= encoding(v / 128));
    } else {
        assert(digits_value(encoding(v).drop_first()) == 0);
    }
}

/// Whether `s` has the shape of a minimal field: it is not empty, every byte
/// but the last has its continuation bit set, the last has it clear, and the
/// last byte is zero only if it is the only one.
pub open spec fn is_minimal_field(s: Seq<u8>) -> bool {
    &&& s.len() >= 1
    &&& forall|i: int| 0 <= i < s.len() - 1 ==> has_continuation(#[trigger] s[i])
    &&& !has_continuation(s.last())
    &&& s.len() > 1 ==> s.last() != 0
}

/// Every encoding has the shape of a minimal field.
pub proof fn lemma_encoding_is_minimal_field(v: nat)
    ensures
        is_minimal_field(encoding(v)),
    decreases v,
{
    if v >= 128 {
        let tail = encoding(v / 128);
        lemma_encoding_is_minimal_field(v / 128);
        assert(encoding(v).last() == tail.last());
        if tail.len() == 1 {
            // The last byte is the digit of `v / 128`, which is not zero.
            lemma_digits_of_encoding(v / 128);
        }
    }
}

/// A minimal field is the encoding of the number that its digits stand for.
pub proof fn lemma_minimal_field_is_encoding(s: Seq<u8>)
    requires
        is_minimal_field(s),
    ensures
        encoding(digits_value(s)) == s,
    decreases s.len(),
{
    let v = digits_value(s);
    let rest = s.drop_first();
    if s.len() == 1 {
        assert(digits_value(rest) == 0);
        assert(v == s[0]);
        assert(encoding(v) =~= s);
    } else {
        assert(is_minimal_field(rest));
        lemma_minimal_field_is_encoding(rest);
        // The digits after the first stand for a number that is not zero:
        // the encoding of zero is the single byte zero, and `rest` is not.
        assert(digits_value(rest) >= 1);
        assert(v / 128 == digits_value(rest));
        assert((128 + v % 128) as u8 == s[0]);
        assert(encoding(v) =~= s);
    }
}

/// The number of bytes in the encoding of a value that fits four bytes.
pub proof fn lemma_encoding_len(v: nat)
    requires
        v <= MAX_REMAINING_LENGTH,
    ensures
        encoding(v).len() == encoded_len(v),
        1 <= encoded_len(v) <= MAX_ENCODED_BYTES,
{
    reveal_with_fuel(encoding, 5);
}

/// The value of a field is the sum of its digits, each multiplied by 128 to
/// the power of its position.
pub proof fn lemma_digits_value_is_positional(s: Seq<u8>)
    requires
        1 <= s.len() <= MAX_ENCODED_BYTES,
    ensures
        s.len() == 1 ==> digits_value(s) == digit(s[0]),
        s.len() == 2 ==> digits_value(s) == digit(s[0]) + 128 * digit(s[1]),
        s.len() == 3 ==> digits_value(s) == digit(s[0]) + 128 * digit(s[1]) + 16_384 * digit(s[2]),
        s.len() == 4 ==> digits_value(s) == digit(s[0]) + 128 * digit(s[1]) + 16_384 * digit(s[2])
            + 2_097_152 * digit(s[3]),
{
    reveal_with_fuel(digits_value, 5);
}

/// Decoding inverts encoding: the encoding of a value that fits four bytes
/// decodes to that value, with the encoding as the bytes of the field.
pub proof fn lemma_decoded_encoding(v: nat)
    requires
        v <= MAX_REMAINING_LENGTH,
    ensures
        decoded(encoding(v)) == Ok::<RemainingLengthView, ParseError>(
            RemainingLengthView::of_value(v),
        ),
{
    lemma_decoded_encoding_then_more(v, Seq::empty());
}

/// Decoding stops where the field ends: whatever bytes follow the encoding
/// of a value, the field decodes as it does alone.
pub proof fn lemma_decoded_encoding_then_more(v: nat, more: Seq<u8>)
    requires
        v <= MAX_REMAINING_LENGTH,
    ensures
        decoded(encoding(v) + more) == Ok::<RemainingLengthView, ParseError>(
            RemainingLengthView::of_value(v),
        ),
{
    let field = encoding(v);
    let s = field + more;
    lemma_encoding_len(v);
    lemma_encoding_is_minimal_field(v);
    lemma_digits_of_encoding(v);
    assert(continuation_run(s) == field.len() - 1);
    assert(s.take(field.len() as int) =~= field);
}

/// Decoding looks at no more than the first four bytes.
pub proof fn lemma_decoded_reads_four_bytes(s: Seq<u8>)
    requires
        s.len() >= MAX_ENCODED_BYTES,
    ensures
        decoded(s) == decoded(s.take(MAX_ENCODED_BYTES as int)),
{
    let head = s.take(MAX_ENCODED_BYTES as int);
    let run = continuation_run(s);
    assert(continuation_run(head) == run);
    if run < 4 {
        assert(head.take((run + 1) as int) =~= s.take((run + 1) as int));
    }
}

/// Encoding inverts decoding: a field that decodes is the minimal encoding of
/// its value, and the value fits four bytes. The field is the start of the
/// input.
pub proof fn lemma_decoded_is_encoding(s: Seq<u8>)
    requires
        decoded(s) is Ok,
    ensures
        decoded(s)->Ok_0.value <= MAX_REMAINING_LENGTH,
        decoded(s)->Ok_0 == RemainingLengthView::of_value(decoded(s)->Ok_0.value),
        decoded(s)->Ok_0.encoded_byte_count <= s.len(),
        decoded(s)->Ok_0.raw_bytes == s.take(decoded(s)->Ok_0.encoded_byte_count as int),
{
    let field = decoded(s)->Ok_0.raw_bytes;
    assert(is_minimal_field(field));
    lemma_minimal_field_is_encoding(field);
    lemma_digits_value_bound(field);
    lemma_weights();
    lemma_encoding_len(digits_value(field));
}

} // verus!
