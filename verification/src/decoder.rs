//! Input decoding: from the bytes or words the fuzzing engine supplies to the
//! arguments that both implementations receive.
//!
//! Decoding is a function of the input alone. Every exec function here pins
//! its result to a spec function of the input, so whatever is derived once is
//! what both invocations see.

use vstd::prelude::*;

verus! {

/// The value of `v` read as a 32-bit two's complement integer: the low 32
/// bits of `v`, with bit 31 as the sign.
pub open spec fn narrow(v: int) -> int {
    let low = v % 0x1_0000_0000;
    if low < 0x8000_0000 {
        low
    } else {
        low - 0x1_0000_0000
    }
}

/// Maps a wide engine word down to the native integer of the ordering routine.
pub fn narrow_word(v: u64) -> (r: i32)
    ensures
        r as int == narrow(v as int),
{
    let r = #[verifier::truncate] (v as i32);
    let ghost low: u64 = v % 0x1_0000_0000;
    assert(low < 0x8000_0000 ==> (v as i32) as i64 == low as i64) by (bit_vector)
        requires
            low == v % 0x1_0000_0000,
    ;
    assert(low >= 0x8000_0000 ==> (v as i32) as i64 == low as i64 - 0x1_0000_0000) by (bit_vector)
        requires
            low == v % 0x1_0000_0000,
    ;
    r
}

/// Maps a buffer index down to the native integer of the ordering routine.
pub fn narrow_index(n: usize) -> (r: i32)
    ensures
        r as int == narrow(n as int),
{
    narrow_word(n as u64)
}

/// The arguments of one call of the ordering routine: a buffer that the
/// routine sorts in place and the inclusive index pair that bounds its work.
#[derive(Clone, Debug, PartialEq, Eq)]
pub struct SortArguments {
    pub buffer: Vec<i32>,
    pub low: i32,
    pub high: i32,
}

/// What `SortArguments` stands for: the buffer's contents and the index pair
/// as mathematical integers.
pub struct SortModel {
    pub buffer: Seq<i32>,
    pub low: int,
    pub high: int,
}

impl SortModel {
    /// The index pair stays inside the buffer: no index from `low` up to
    /// `high` lies outside it. A pair with `high < low` bounds an empty range.
    pub open spec fn in_range(self) -> bool {
        0 <= self.low && self.high < self.buffer.len()
    }
}

impl View for SortArguments {
    type V = SortModel;

    open spec fn view(&self) -> SortModel {
        SortModel { buffer: self.buffer@, low: self.low as int, high: self.high as int }
    }
}

impl SortArguments {
    /// Tests the index pair against the buffer's length, as must be done
    /// before buffer and pair cross the foreign boundary.
    pub fn in_range(&self) -> (ok: bool)
        ensures
            ok == self@.in_range(),
    {
        0 <= self.low && (self.high < 0 || (self.high as usize) < self.buffer.len())
    }
}

/// The words of `input`, each narrowed to the native integer.
pub open spec fn narrowed(input: Seq<u64>) -> Seq<i32> {
    Seq::new(input.len(), |i: int| narrow(input[i] as int) as i32)
}

/// The arguments that a sequence of engine words decodes to: none for the
/// empty sequence; otherwise the narrowed words, to be sorted over the full
/// range, from index 0 to the narrowed index of the last word.
pub open spec fn sort_arguments(input: Seq<u64>) -> Option<SortModel> {
    if input.len() == 0 {
        None
    } else {
        Some(SortModel { buffer: narrowed(input), low: 0, high: narrow(input.len() - 1) })
    }
}

/// `result` is what decoding `input` for the ordering routine yields.
pub open spec fn decodes_words(input: Seq<u64>, result: Option<SortArguments>) -> bool {
    match result {
        None => sort_arguments(input) is None,
        Some(arguments) => sort_arguments(input) == Some(arguments@),
    }
}

/// Wherever a natural number is narrowed, the result does not exceed it.
pub proof fn lemma_narrow_at_most(v: int)
    requires
        0 <= v,
    ensures
        narrow(v) <= v,
        0 <= v < 0x8000_0000 ==> narrow(v) == v,
{
}

/// Decodes the engine's words for the ordering routine. Empty input is
/// rejected; any other input yields a buffer and an index pair inside it.
pub fn decode_words(data: &[u64]) -> (result: Option<SortArguments>)
    ensures
        decodes_words(data@, result),
        result is None <==> data@.len() == 0,
        result matches Some(arguments) ==> arguments@.in_range(),
{
    if data.len() == 0 {
        return None;
    }
    let mut buffer: Vec<i32> = Vec::new();
    let mut i: usize = 0;
    while i < data.len()
        invariant
            i <= data.len(),
            buffer@.len() == i,
            forall|k: int| 0 <= k < i ==> buffer@[k] == narrow(data@[k] as int) as i32,
        decreases data.len() - i,
    {
        buffer.push(narrow_word(data[i]));
        i += 1;
    }
    let high = narrow_index(data.len() - 1);
    proof {
        lemma_narrow_at_most(data.len() - 1);
        assert(buffer@ =~= narrowed(data@));
    }
    Some(SortArguments { buffer, low: 0, high })
}

/// A text buffer that a parse routine may read as a terminated string: it is
/// not empty and its last byte is the terminator.
pub open spec fn terminated(buffer: Seq<u8>) -> bool {
    buffer.len() > 0 && buffer.last() == 0
}

/// The buffer that a sequence of engine bytes decodes to: none for the empty
/// sequence; otherwise the bytes followed by one terminator.
pub open spec fn text_arguments(input: Seq<u8>) -> Option<Seq<u8>> {
    if input.len() == 0 {
        None
    } else {
        Some(input.push(0u8))
    }
}

/// `result` is what decoding `input` for the parse routine yields.
pub open spec fn decodes_text(input: Seq<u8>, result: Option<Vec<u8>>) -> bool {
    match result {
        None => text_arguments(input) is None,
        Some(buffer) => text_arguments(input) == Some(buffer@),
    }
}

/// Decodes the engine's bytes for the parse routine. Empty input is rejected;
/// any other input yields the bytes with the terminator appended.
pub fn decode_text(data: &[u8]) -> (result: Option<Vec<u8>>)
    ensures
        decodes_text(data@, result),
        result is None <==> data@.len() == 0,
        result matches Some(buffer) ==> terminated(buffer@),
{
    if data.len() == 0 {
        return None;
    }
    let mut buffer: Vec<u8> = Vec::new();
    buffer.extend_from_slice(data);
    buffer.push(0);
    assert(buffer@ =~= data@.push(0u8));
    Some(buffer)
}

/// Tests that a text buffer ends in the terminator, as must be done before
/// it crosses the foreign boundary as a string.
pub fn is_terminated(buffer: &[u8]) -> (ok: bool)
    ensures
        ok == terminated(buffer@),
{
    buffer.len() > 0 && buffer[buffer.len() - 1] == 0
}

/// Decoding is deterministic: whatever two decodings of the same words
/// return, they stand for the same arguments.
pub proof fn lemma_decode_words_deterministic(
    input: Seq<u64>,
    first: Option<SortArguments>,
    second: Option<SortArguments>,
)
    requires
        decodes_words(input, first),
        decodes_words(input, second),
    ensures
        first is None <==> second is None,
        first is Some ==> first->0@ == second->0@,
{
}

/// Decoding is deterministic: whatever two decodings of the same bytes
/// return, they hold the same buffer.
pub proof fn lemma_decode_text_deterministic(
    input: Seq<u8>,
    first: Option<Vec<u8>>,
    second: Option<Vec<u8>>,
)
    requires
        decodes_text(input, first),
        decodes_text(input, second),
    ensures
        first is None <==> second is None,
        first is Some ==> first->0@ == second->0@,
{
}

} // verus!
