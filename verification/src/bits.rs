//! Bit fields of 32-bit registers.

use vstd::prelude::*;

verus! {

/// Whether bits `offset .. offset + width` form a proper field of a 32-bit word.
pub open spec fn valid_span(offset: u32, width: u32) -> bool {
    1 <= width && width < 32 && offset + width <= 32
}

/// Whether two spans have no bit in common.
pub open spec fn disjoint_spans(offset1: u32, width1: u32, offset2: u32, width2: u32) -> bool {
    offset1 + width1 <= offset2 || offset2 + width2 <= offset1
}

/// The word whose lowest `width` bits are set.
pub open spec fn low_mask(width: u32) -> u32 {
    ((1u32 << width) - 1) as u32
}

/// The word whose bits `offset .. offset + width` are set.
pub open spec fn span_mask(offset: u32, width: u32) -> u32 {
    low_mask(width) << offset
}

/// The value of the field at bits `offset .. offset + width` of `word`.
pub open spec fn extract(word: u32, offset: u32, width: u32) -> u32 {
    (word >> offset) & low_mask(width)
}

/// `word` with the field at bits `offset .. offset + width` replaced by the lowest `width`
/// bits of `value`.
pub open spec fn insert(word: u32, offset: u32, width: u32, value: u32) -> u32 {
    (word & !span_mask(offset, width)) | ((value << offset) & span_mask(offset, width))
}

/// Whether bit `i` of `word` is set.
pub open spec fn bit_set(word: u32, i: u32) -> bool {
    (word >> i) & 1u32 == 1u32
}

/// The mask of a span, as `span_mask` defines it.
pub fn make_mask(offset: u32, width: u32) -> (mask: u32)
    requires
        valid_span(offset, width),
    ensures
        mask == span_mask(offset, width),
{
    assert(1u32 << width >= 1u32) by (bit_vector)
        requires
            width < 32,
    ;
    ((1u32 << width) - 1) << offset
}

/// A field reads back the lowest bits of what was inserted into it.
pub proof fn lemma_extract_insert(word: u32, offset: u32, width: u32, value: u32)
    requires
        valid_span(offset, width),
    ensures
        extract(insert(word, offset, width, value), offset, width) == value & low_mask(width),
        value < 1u32 << width ==> extract(insert(word, offset, width, value), offset, width)
            == value,
{
    assert({
        let low = ((1u32 << width) - 1) as u32;
        let mask = low << offset;
        let out = (word & !mask) | ((value << offset) & mask);
        &&& (out >> offset) & low == value & low
        &&& value < 1u32 << width ==> value & low == value
    }) by (bit_vector)
        requires
            1 <= width < 32,
            offset + width <= 32,
    ;
}

/// Inserting into one field leaves a field with no common bit unchanged.
pub proof fn lemma_extract_insert_other(
    word: u32,
    offset: u32,
    width: u32,
    value: u32,
    offset2: u32,
    width2: u32,
)
    requires
        valid_span(offset, width),
        valid_span(offset2, width2),
        disjoint_spans(offset, width, offset2, width2),
    ensures
        extract(insert(word, offset, width, value), offset2, width2) == extract(
            word,
            offset2,
            width2,
        ),
{
    assert({
        let mask = (((1u32 << width) - 1) as u32) << offset;
        let low2 = ((1u32 << width2) - 1) as u32;
        let out = (word & !mask) | ((value << offset) & mask);
        (out >> offset2) & low2 == (word >> offset2) & low2
    }) by (bit_vector)
        requires
            1 <= width < 32,
            offset + width <= 32,
            1 <= width2 < 32,
            offset2 + width2 <= 32,
            offset + width <= offset2 || offset2 + width2 <= offset,
    ;
}

/// A bit of the result of an insertion comes from the value inside the field and from the
/// word outside it.
pub proof fn lemma_insert_bits(word: u32, offset: u32, width: u32, value: u32, i: u32)
    requires
        valid_span(offset, width),
        i < 32,
    ensures
        offset <= i < offset + width ==> bit_set(insert(word, offset, width, value), i) == bit_set(
            value,
            (i - offset) as u32,
        ),
        !(offset <= i < offset + width) ==> bit_set(insert(word, offset, width, value), i)
            == bit_set(word, i),
{
    assert({
        let mask = (((1u32 << width) - 1) as u32) << offset;
        let out = (word & !mask) | ((value << offset) & mask);
        &&& offset <= i < offset + width ==> (((out >> i) & 1u32) == ((value >> ((i
            - offset) as u32)) & 1u32))
        &&& !(offset <= i < offset + width) ==> ((out >> i) & 1u32) == ((word >> i) & 1u32)
    }) by (bit_vector)
        requires
            1 <= width < 32,
            offset + width <= 32,
            i < 32,
    ;
}

/// Putting a field's own value back changes nothing.
pub proof fn lemma_insert_extract(word: u32, offset: u32, width: u32)
    requires
        valid_span(offset, width),
    ensures
        insert(word, offset, width, extract(word, offset, width)) == word,
{
    assert({
        let low = ((1u32 << width) - 1) as u32;
        let mask = low << offset;
        (word & !mask) | ((((word >> offset) & low) << offset) & mask) == word
    }) by (bit_vector)
        requires
            1 <= width < 32,
            offset + width <= 32,
    ;
}

/// Of two insertions into one field the second prevails.
pub proof fn lemma_insert_twice(word: u32, offset: u32, width: u32, first: u32, second: u32)
    requires
        valid_span(offset, width),
    ensures
        insert(insert(word, offset, width, first), offset, width, second) == insert(
            word,
            offset,
            width,
            second,
        ),
{
    assert({
        let mask = (((1u32 << width) - 1) as u32) << offset;
        let once = (word & !mask) | ((first << offset) & mask);
        (once & !mask) | ((second << offset) & mask) == (word & !mask) | ((second << offset) & mask)
    }) by (bit_vector);
}

} // verus!
