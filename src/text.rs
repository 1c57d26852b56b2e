use vstd::prelude::*;
use encoding::all::ISO_8859_1;
use encoding::{DecoderTrap, EncoderTrap, Encoding};

verus! {

/// The passage cut at every newline; a passage without newlines is one line, and a
/// trailing newline leaves an empty last line.
pub open spec fn split_lines(s: Seq<char>) -> Seq<Seq<char>>
    decreases s.len(),
{
    if s.len() == 0 {
        seq![Seq::<char>::empty()]
    } else {
        let prev = split_lines(s.drop_last());
        if s.last() == '\n' {
            prev.push(Seq::<char>::empty())
        } else {
            prev.update(prev.len() - 1, prev.last().push(s.last()))
        }
    }
}

pub proof fn lemma_split_lines_nonempty(s: Seq<char>)
    ensures
        split_lines(s).len() >= 1,
    decreases s.len(),
{
    if s.len() > 0 {
        lemma_split_lines_nonempty(s.drop_last());
    }
}

/// The ISO-8859-1 bytes of the characters that the encoding can represent, in order;
/// the others are left out.
pub open spec fn latin1_bytes(s: Seq<char>) -> Seq<u8>
    decreases s.len(),
{
    if s.len() == 0 {
        Seq::<u8>::empty()
    } else {
        let prev = latin1_bytes(s.drop_last());
        if (s.last() as u32) < 256 {
            prev.push(s.last() as u32 as u8)
        } else {
            prev
        }
    }
}

/// Each byte read as the ISO-8859-1 character of the same code.
pub open spec fn latin1_chars(b: Seq<u8>) -> Seq<char> {
    b.map_values(|x: u8| x as char)
}

/// Every tab replaced by two spaces.
pub open spec fn expand_tabs(s: Seq<char>) -> Seq<char>
    decreases s.len(),
{
    if s.len() == 0 {
        Seq::<char>::empty()
    } else if s.last() == '\t' {
        expand_tabs(s.drop_last()) + seq![' ', ' ']
    } else {
        expand_tabs(s.drop_last()).push(s.last())
    }
}

/// What a passage becomes before it is typed: characters outside ISO-8859-1 dropped,
/// tabs expanded to two spaces.
pub open spec fn filtered(s: Seq<char>) -> Seq<char> {
    expand_tabs(latin1_chars(latin1_bytes(s)))
}

/// Relies on encoding's `ISO_8859_1.encode` with `EncoderTrap::Ignore`: characters up to
/// U+00FF become the byte of the same code, the others are skipped, and the call never fails.
#[verifier::external_body]
pub(crate) fn encode_latin1(s: &str) -> (r: Option<Vec<u8>>)
    ensures
        r is Some,
        r->0@ == latin1_bytes(s@),
{
    ISO_8859_1.encode(s, EncoderTrap::Ignore).ok()
}

/// Relies on encoding's `ISO_8859_1.decode` with `DecoderTrap::Strict`: every byte maps to
/// the character of the same code, so the call never fails.
#[verifier::external_body]
pub(crate) fn decode_latin1(b: &[u8]) -> (r: Option<String>)
    ensures
        r is Some,
        r->0@ == latin1_chars(b@),
{
    ISO_8859_1.decode(b, DecoderTrap::Strict).ok()
}

/// Relies on `str::replace`, which replaces every match of the pattern.
#[verifier::external_body]
pub(crate) fn replace_tabs(s: &str) -> (r: String)
    ensures
        r@ == expand_tabs(s@),
{
    s.replace("\t", "  ")
}

} // verus!
