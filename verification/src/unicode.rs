use crate::constants::special_characters::REPLACEMENT_CHARACTER;
use vstd::prelude::*;
use vstd::utf8::{
    decode_first_scalar, encode_scalar, encode_utf8, encode_utf8_first_scalar,
    is_continuation_byte, is_scalar, length_of_first_scalar, valid_first_scalar,
};

verus! {

/// `char::from_u32`: the character with the given number, where the number is a
/// Unicode scalar value, and `None` where it is a surrogate or above U+10FFFF.
pub assume_specification[ char::from_u32 ](i: u32) -> (r: Option<char>)
    ensures
        r == (if is_scalar(i) {
            Some(i as char)
        } else {
            None::<char>
        }),
;

/// How many bytes the encoding that begins with `b` has, going by `b` alone, or 0
/// where no encoding begins with `b`: a continuation byte, `0xC0` and `0xC1`
/// (which could only begin an encoding longer than needed), and `0xF5` and above
/// (which could only begin a value above U+10FFFF).
pub open spec fn leading_width(b: u8) -> int {
    if b <= 0x7F {
        1
    } else if 0xC2 <= b <= 0xDF {
        2
    } else if 0xE0 <= b <= 0xEF {
        3
    } else if 0xF0 <= b <= 0xF4 {
        4
    } else {
        0
    }
}

/// The character that a complete run of bytes stands for: the scalar that it
/// encodes where it is the well-formed encoding of one scalar, else U+FFFD.
pub open spec fn scalar_of(bytes: Seq<u8>) -> char {
    if valid_first_scalar(bytes) && length_of_first_scalar(bytes) == bytes.len() {
        decode_first_scalar(bytes) as char
    } else {
        REPLACEMENT_CHARACTER
    }
}

/// What a [`Utf8Decoder`] is in contracts: the bytes of the encoding that it is
/// in the middle of, and how many more it waits for.
pub struct DecoderModel {
    pub pending: Seq<u8>,
    pub remaining: int,
}

impl DecoderModel {
    /// The decoder between two encodings.
    pub open spec fn idle() -> DecoderModel {
        DecoderModel { pending: Seq::empty(), remaining: 0 }
    }

    /// What holds of every decoder: between encodings it holds no bytes; inside
    /// one it holds the leading byte and the continuation bytes read so far, and
    /// waits for the rest of what the leading byte announced.
    pub open spec fn wf(self) -> bool {
        if self.remaining == 0 {
            self.pending.len() == 0
        } else {
            &&& 1 <= self.remaining <= 3
            &&& self.pending.len() >= 1
            &&& self.pending.len() + self.remaining == leading_width(self.pending[0])
        }
    }

    /// The decoder after one more byte, and the character that the byte
    /// completes, if it completes one.
    pub open spec fn step(self, b: u8) -> (DecoderModel, Option<char>) {
        if self.remaining == 0 {
            if leading_width(b) == 1 {
                (DecoderModel::idle(), Some(b as char))
            } else if leading_width(b) == 0 {
                (DecoderModel::idle(), Some(REPLACEMENT_CHARACTER))
            } else {
                (DecoderModel { pending: seq![b], remaining: leading_width(b) - 1 }, None)
            }
        } else if self.remaining == 1 {
            (DecoderModel::idle(), Some(scalar_of(self.pending.push(b))))
        } else {
            (
                DecoderModel { pending: self.pending.push(b), remaining: self.remaining - 1 },
                None,
            )
        }
    }

    /// The decoder after a run of bytes, and the characters that they completed,
    /// in order.
    pub open spec fn decode(self, bytes: Seq<u8>) -> (DecoderModel, Seq<char>)
        decreases bytes.len(),
    {
        if bytes.len() == 0 {
            (self, Seq::empty())
        } else {
            let (before, chars) = self.decode(bytes.drop_last());
            let (after, completed) = before.step(bytes.last());
            (
                after,
                match completed {
                    Some(c) => chars.push(c),
                    None => chars,
                },
            )
        }
    }
}

/// Turns a stream of bytes into characters, one byte at a time, keeping the
/// bytes of an unfinished encoding from one call to the next.
pub struct Utf8Decoder {
    current_unicode_scalar: Vec<u8>,
    remaining_unicode_scalar_bytes: u8,
}

impl View for Utf8Decoder {
    type V = DecoderModel;

    closed spec fn view(&self) -> DecoderModel {
        DecoderModel {
            pending: self.current_unicode_scalar@,
            remaining: self.remaining_unicode_scalar_bytes as int,
        }
    }
}

/// Tells how many bytes the encoding that begins with `b` has, or 0.
pub fn width_of_leading_byte(b: u8) -> (width: u8)
    ensures
        width == leading_width(b),
{
    if b <= 0x7F {
        1
    } else if 0xC2 <= b && b <= 0xDF {
        2
    } else if 0xE0 <= b && b <= 0xEF {
        3
    } else if 0xF0 <= b && b <= 0xF4 {
        4
    } else {
        0
    }
}

fn is_continuation(b: u8) -> (r: bool)
    ensures
        r == is_continuation_byte(b),
{
    0x80 <= b && b <= 0xBF
}

/// The character that a complete run of bytes stands for: the scalar where the
/// bytes are the well-formed UTF-8 encoding of exactly one scalar, else U+FFFD.
pub fn decode_scalar(bytes: &Vec<u8>) -> (c: char)
    ensures
        c == scalar_of(bytes@),
{
    let len: usize = bytes.len();
    if len == 0 || len > 4 {
        return REPLACEMENT_CHARACTER;
    }
    let b0: u8 = bytes[0];
    if b0 <= 0x7F {
        if len != 1 {
            return REPLACEMENT_CHARACTER;
        }
        assert(b0 & 0x7F == b0) by (bit_vector)
            requires
                b0 <= 0x7F,
        ;
        return b0 as char;
    }
    let code: u32 = if 0xC0 <= b0 && b0 <= 0xDF {
        if len != 2 || !is_continuation(bytes[1]) {
            return REPLACEMENT_CHARACTER;
        }
        let b1: u8 = bytes[1];
        let code: u32 = (((b0 & 0x1F) as u32) << 6) | ((b1 & 0x3F) as u32);
        assert(code <= 0x7FF) by (bit_vector)
            requires
                code == (((b0 & 0x1F) as u32) << 6) | ((b1 & 0x3F) as u32),
        ;
        if code < 0x80 {
            return REPLACEMENT_CHARACTER;
        }
        code
    } else if 0xE0 <= b0 && b0 <= 0xEF {
        if len != 3 || !is_continuation(bytes[1]) || !is_continuation(bytes[2]) {
            return REPLACEMENT_CHARACTER;
        }
        let b1: u8 = bytes[1];
        let b2: u8 = bytes[2];
        let code: u32 = (((b0 & 0x0F) as u32) << 12) | (((b1 & 0x3F) as u32) << 6) | ((b2
            & 0x3F) as u32);
        assert(code <= 0xFFFF) by (bit_vector)
            requires
                code == (((b0 & 0x0F) as u32) << 12) | (((b1 & 0x3F) as u32) << 6) | ((b2
                    & 0x3F) as u32),
        ;
        if code < 0x800 || (0xD800 <= code && code <= 0xDFFF) {
            return REPLACEMENT_CHARACTER;
        }
        code
    } else if 0xF0 <= b0 && b0 <= 0xF7 {
        if len != 4 || !is_continuation(bytes[1]) || !is_continuation(bytes[2])
            || !is_continuation(bytes[3]) {
            return REPLACEMENT_CHARACTER;
        }
        let b1: u8 = bytes[1];
        let b2: u8 = bytes[2];
        let b3: u8 = bytes[3];
        let code: u32 = (((b0 & 0x07) as u32) << 18) | (((b1 & 0x3F) as u32) << 12) | (((b2
            & 0x3F) as u32) << 6) | ((b3 & 0x3F) as u32);
        if code < 0x10000 || code > 0x10FFFF {
            return REPLACEMENT_CHARACTER;
        }
        code
    } else {
        return REPLACEMENT_CHARACTER;
    };
    match char::from_u32(code) {
        Some(c) => c,
        None => REPLACEMENT_CHARACTER,
    }
}

impl Utf8Decoder {
    /// A decoder that has read nothing.
    pub fn new() -> (decoder: Utf8Decoder)
        ensures
            decoder@ == DecoderModel::idle(),
            decoder@.wf(),
    {
        Utf8Decoder { current_unicode_scalar: Vec::new(), remaining_unicode_scalar_bytes: 0 }
    }

    /// Tells whether the decoder is well formed.
    pub fn is_well_formed(&self) -> (ok: bool)
        ensures
            ok == self@.wf(),
    {
        let held: usize = self.current_unicode_scalar.len();
        let remaining: u8 = self.remaining_unicode_scalar_bytes;
        if remaining == 0 {
            held == 0
        } else if remaining > 3 || held == 0 || held > 3 {
            false
        } else {
            held as u8 + remaining == width_of_leading_byte(self.current_unicode_scalar[0])
        }
    }

    /// Takes one byte of the stream. Returns the character that the byte
    /// completes: the byte itself where it is ASCII, U+FFFD where it can begin no
    /// encoding, and, for the last byte of a longer encoding, the scalar that the
    /// bytes encode, or U+FFFD where they are no well-formed encoding. Returns
    /// `None` while an encoding is unfinished.
    pub fn decode_byte(&mut self, b: u8) -> (completed: Option<char>)
        requires
            old(self)@.wf(),
        ensures
            (final(self)@, completed) == old(self)@.step(b),
            final(self)@.wf(),
    {
        if self.remaining_unicode_scalar_bytes == 0 {
            assert(self.current_unicode_scalar@ == Seq::<u8>::empty());
            let width: u8 = width_of_leading_byte(b);
            if width == 1 {
                return Some(b as char);
            }
            if width == 0 {
                return Some(REPLACEMENT_CHARACTER);
            }
            self.current_unicode_scalar.push(b);
            self.remaining_unicode_scalar_bytes = width - 1;
            proof {
                assert(self.current_unicode_scalar@ == seq![b]);
            }
            return None;
        }
        self.current_unicode_scalar.push(b);
        self.remaining_unicode_scalar_bytes -= 1;
        if self.remaining_unicode_scalar_bytes == 0 {
            let c: char = decode_scalar(&self.current_unicode_scalar);
            self.current_unicode_scalar.clear();
            return Some(c);
        }
        None
    }
}

} // verus!

verus! {

/// A leading byte announces the length of the encoding that it begins: where a
/// run of bytes begins with the well-formed encoding of a scalar, the width of
/// its first byte is the length of that encoding.
pub proof fn lemma_leading_width_of_valid(bytes: Seq<u8>)
    requires
        valid_first_scalar(bytes),
    ensures
        leading_width(bytes[0]) == length_of_first_scalar(bytes),
        1 <= length_of_first_scalar(bytes) <= 4,
        length_of_first_scalar(bytes) <= bytes.len(),
{
    let b0 = bytes[0];
    if 0xC0 <= b0 <= 0xDF {
        let b1 = bytes[1];
        assert(b0 >= 0xC2) by (bit_vector)
            requires
                0xC0 <= b0 <= 0xDF,
                ((((b0 & 0x1F) as u32) << 6) | ((b1 & 0x3F) as u32)) >= 0x80,
        ;
    } else if 0xF0 <= b0 <= 0xF7 {
        let b1 = bytes[1];
        let b2 = bytes[2];
        let b3 = bytes[3];
        assert(b0 <= 0xF4) by (bit_vector)
            requires
                0xF0 <= b0 <= 0xF7,
                ((((b0 & 0x07) as u32) << 18) | (((b1 & 0x3F) as u32) << 12) | (((b2
                    & 0x3F) as u32) << 6) | ((b3 & 0x3F) as u32)) <= 0x10FFFF,
        ;
    }
}

/// Decoding one more byte: the run before it is decoded first, then the byte.
pub proof fn lemma_decode_push(decoder: DecoderModel, bytes: Seq<u8>, b: u8)
    ensures
        decoder.decode(bytes.push(b)) == ({
            let (before, chars) = decoder.decode(bytes);
            let (after, completed) = before.step(b);
            (
                after,
                match completed {
                    Some(c) => chars.push(c),
                    None => chars,
                },
            )
        }),
{
    assert(bytes.push(b).drop_last() == bytes);
}

/// Decoding two runs one after the other is decoding the first, then the second
/// from where the first left the decoder.
pub proof fn lemma_decode_concat(decoder: DecoderModel, first: Seq<u8>, second: Seq<u8>)
    ensures
        decoder.decode(first + second) == (
            decoder.decode(first).0.decode(second).0,
            decoder.decode(first).1 + decoder.decode(first).0.decode(second).1,
        ),
    decreases second.len(),
{
    let middle = decoder.decode(first).0;
    if second.len() == 0 {
        assert(first + second == first);
        assert(decoder.decode(first).1 + middle.decode(second).1 == decoder.decode(first).1);
    } else {
        lemma_decode_concat(decoder, first, second.drop_last());
        assert((first + second).drop_last() == first + second.drop_last());
        let chars = decoder.decode(first).1;
        let (before, more) = middle.decode(second.drop_last());
        match before.step(second.last()).1 {
            Some(c) => {
                assert((chars + more).push(c) == chars + more.push(c));
            },
            None => {},
        }
    }
}

/// While fewer bytes have come than an unfinished encoding waits for, the
/// decoder collects them and completes nothing.
pub proof fn lemma_collects(decoder: DecoderModel, bytes: Seq<u8>)
    requires
        decoder.wf(),
        bytes.len() < decoder.remaining,
    ensures
        decoder.decode(bytes) == (
            DecoderModel {
                pending: decoder.pending + bytes,
                remaining: decoder.remaining - bytes.len(),
            },
            Seq::<char>::empty(),
        ),
    decreases bytes.len(),
{
    if bytes.len() == 0 {
        assert(decoder.pending + bytes == decoder.pending);
    } else {
        lemma_collects(decoder, bytes.drop_last());
        assert((decoder.pending + bytes.drop_last()).push(bytes.last()) == decoder.pending + bytes);
    }
}

/// An unfinished encoding is over after as many bytes as it waits for, whatever
/// they are: they complete exactly one character, which is the scalar that the
/// collected bytes encode or U+FFFD, and the decoder is between encodings again.
/// So bytes that are no valid UTF-8 cost one character and no byte after them.
pub proof fn lemma_completes(decoder: DecoderModel, bytes: Seq<u8>)
    requires
        decoder.wf(),
        decoder.remaining > 0,
        bytes.len() == decoder.remaining,
    ensures
        decoder.decode(bytes) == (
            DecoderModel::idle(),
            seq![scalar_of(decoder.pending + bytes)],
        ),
{
    lemma_collects(decoder, bytes.drop_last());
    assert((decoder.pending + bytes.drop_last()).push(bytes.last()) == decoder.pending + bytes);
    assert(Seq::<char>::empty().push(scalar_of(decoder.pending + bytes)) == seq![
        scalar_of(decoder.pending + bytes),
    ]);
}

/// The bytes that encode one character give back that character, and leave the
/// decoder between encodings.
pub proof fn lemma_decode_one(c: char)
    ensures
        DecoderModel::idle().decode(encode_scalar(c as u32)) == (DecoderModel::idle(), seq![c]),
{
    broadcast use vstd::utf8::char_u32_cast;

    let bytes = encode_scalar(c as u32);
    let idle = DecoderModel::idle();
    assert(encode_utf8(seq![c]) == bytes) by {
        assert(seq![c].drop_first() == Seq::<char>::empty());
        assert(encode_utf8(Seq::<char>::empty()) == Seq::<u8>::empty());
        assert(bytes + Seq::<u8>::empty() == bytes);
    }
    encode_utf8_first_scalar(seq![c]);
    lemma_leading_width_of_valid(bytes);
    assert(scalar_of(bytes) == c);
    let none = Seq::<u8>::empty();
    assert(idle.decode(none) == (idle, Seq::<char>::empty()));
    lemma_decode_push(idle, none, bytes[0]);
    assert(none.push(bytes[0]) == seq![bytes[0]]);
    if bytes.len() == 1 {
        assert(bytes == seq![bytes[0]]);
        assert(bytes[0] as char == c) by {
            let b0 = bytes[0];
            assert(b0 & 0x7F == b0) by (bit_vector)
                requires
                    b0 <= 0x7F,
            ;
        }
        assert(Seq::<char>::empty().push(c) == seq![c]);
    } else {
        lemma_decode_push(idle, seq![bytes[0]], bytes[1]);
        if bytes.len() == 2 {
            assert(bytes == seq![bytes[0]].push(bytes[1]));
        } else {
            lemma_decode_push(idle, seq![bytes[0]].push(bytes[1]), bytes[2]);
            if bytes.len() == 3 {
                assert(bytes == seq![bytes[0]].push(bytes[1]).push(bytes[2]));
            } else {
                lemma_decode_push(idle, seq![bytes[0]].push(bytes[1]).push(bytes[2]), bytes[3]);
                assert(bytes == seq![bytes[0]].push(bytes[1]).push(bytes[2]).push(bytes[3]));
            }
        }
        assert(Seq::<char>::empty().push(c) == seq![c]);
    }
}

/// Encoding a string as UTF-8 and feeding the bytes to a decoder one at a time
/// gives back exactly the characters of the string, in order, and leaves the
/// decoder between encodings.
pub proof fn lemma_utf8_round_trip(chars: Seq<char>)
    ensures
        DecoderModel::idle().decode(encode_utf8(chars)) == (DecoderModel::idle(), chars),
    decreases chars.len(),
{
    let idle = DecoderModel::idle();
    if chars.len() == 0 {
        assert(encode_utf8(chars) == Seq::<u8>::empty());
        assert(chars == Seq::<char>::empty());
    } else {
        let first = encode_scalar(chars[0] as u32);
        let rest = encode_utf8(chars.drop_first());
        lemma_decode_one(chars[0]);
        lemma_utf8_round_trip(chars.drop_first());
        lemma_decode_concat(idle, first, rest);
        assert(seq![chars[0]] + chars.drop_first() == chars);
    }
}

} // verus!
