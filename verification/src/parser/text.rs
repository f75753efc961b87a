//! Slices of the input text, addressed by byte offsets.
//!
//! The scanner works on bytes while nodes carry text, so every span that is
//! cut out of the input has to begin and end between two characters. The
//! lemmas here give the three ways in which the parser knows that an offset
//! is such a boundary: a byte that is no continuation byte stands there, a
//! plain ASCII byte stands right before it, or a whole piece of well-formed
//! text ends there.

use vstd::prelude::*;
use vstd::string::*;
use vstd::utf8::*;

verus! {

/// The characters that the bytes from `start` up to `end` spell.
pub open spec fn text(bytes: Seq<u8>, start: nat, end: nat) -> Seq<char> {
    decode_utf8(bytes.subrange(start as int, end as int))
}

/// An offset is a boundary when a well-formed text starts at it.
pub proof fn lemma_boundary_at_leading_byte(bytes: Seq<u8>, index: int)
    requires
        valid_utf8(bytes),
        0 <= index < bytes.len(),
        !is_continuation_byte(bytes[index]),
    ensures
        is_char_boundary(bytes, index),
{
    is_char_boundary_iff_not_is_continuation_byte(bytes, index);
}

/// Well-formed text never starts with a continuation byte.
pub proof fn lemma_first_byte_leads(bytes: Seq<u8>)
    requires
        valid_utf8(bytes),
        bytes.len() > 0,
    ensures
        !is_continuation_byte(bytes[0]),
{
}

/// Where a well-formed prefix of a well-formed text ends, a character ends.
pub proof fn lemma_boundary_after_prefix(bytes: Seq<u8>, index: int)
    requires
        valid_utf8(bytes),
        0 <= index <= bytes.len(),
        valid_utf8(bytes.subrange(0, index)),
    ensures
        is_char_boundary(bytes, index),
    decreases bytes.len(),
{
    if index > 0 {
        let prefix = bytes.subrange(0, index);
        let width = length_of_first_scalar(bytes);
        assert(prefix[0] == bytes[0]);
        assert(length_of_first_scalar(prefix) == width);
        assert(width <= index);
        assert(pop_first_scalar(prefix) =~= pop_first_scalar(bytes).subrange(0, index - width));
        lemma_boundary_after_prefix(pop_first_scalar(bytes), index - width);
    }
}

/// A piece of well-formed text that stands at a boundary ends at a boundary.
pub proof fn lemma_boundary_after_piece(bytes: Seq<u8>, index: int, piece: Seq<u8>)
    requires
        valid_utf8(bytes),
        valid_utf8(piece),
        is_char_boundary(bytes, index),
        0 <= index,
        index + piece.len() <= bytes.len(),
        bytes.subrange(index, index + piece.len()) == piece,
    ensures
        is_char_boundary(bytes, index + piece.len()),
{
    valid_utf8_split(bytes, index);
    valid_utf8_concat(bytes.subrange(0, index), piece);
    assert(bytes.subrange(0, index) + piece =~= bytes.subrange(0, index + piece.len()));
    lemma_boundary_after_prefix(bytes, index + piece.len());
}

/// The offset right after an ASCII byte is a boundary.
pub proof fn lemma_boundary_after_ascii(bytes: Seq<u8>, index: int)
    requires
        valid_utf8(bytes),
        0 < index <= bytes.len(),
        bytes[index - 1] < 0x80,
    ensures
        is_char_boundary(bytes, index - 1),
        is_char_boundary(bytes, index),
{
    lemma_boundary_at_leading_byte(bytes, index - 1);
    let piece = bytes.subrange(index - 1, index);
    assert(valid_utf8(piece)) by {
        assert(valid_first_scalar(piece));
        assert(pop_first_scalar(piece).len() == 0);
        reveal_with_fuel(valid_utf8, 2);
    }
    lemma_boundary_after_piece(bytes, index - 1, piece);
}

/// The part of `input` from byte `start` up to byte `end`.
pub fn slice_text<'a>(input: &'a str, start: usize, end: usize) -> (piece: &'a str)
    requires
        start <= end <= input.spec_bytes().len(),
        is_char_boundary(input.spec_bytes(), start as int),
        is_char_boundary(input.spec_bytes(), end as int),
    ensures
        piece.spec_bytes() == input.spec_bytes().subrange(start as int, end as int),
        piece@ == text(input.spec_bytes(), start as nat, end as nat),
{
    broadcast use {encode_utf8_valid_utf8, encode_utf8_decode_utf8};

    let ghost bytes = input.spec_bytes();
    let (head, _) = input.split_at(end);
    proof {
        valid_utf8_split(bytes, end as int);
        valid_utf8_split(bytes, start as int);
        assert(head.spec_bytes().subrange(0, start as int) =~= bytes.subrange(0, start as int));
        lemma_boundary_after_prefix(head.spec_bytes(), start as int);
    }
    let (_, piece) = head.split_at(start);
    proof {
        assert(piece.spec_bytes() =~= bytes.subrange(start as int, end as int));
    }
    piece
}

} // verus!
