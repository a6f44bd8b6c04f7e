//! How a set of flags is written out: the names of the flags it holds,
//! in the order of their declaration, with ` | ` between them.

use vstd::prelude::*;
use vstd::string::StringExecFns;

verus! {

/// The text of a flag set so far, after one more flag was looked at: the
/// flag's name is appended if the flag is present, after a separator unless
/// it is the first name.
pub open spec fn spec_with_name(text: Seq<char>, first: bool, present: bool, name: Seq<char>) -> Seq<
    char,
> {
    if !present {
        text
    } else if first {
        text + name
    } else {
        text + " | "@ + name
    }
}

/// Whether a flag set's text says that a flag with the bits `flag` is in
/// `bits`: all of its bits are, and a flag without bits only in the empty set.
pub open spec fn spec_names_flag(bits: u64, flag: u64) -> bool {
    if flag == 0 && bits != 0 {
        false
    } else {
        bits & flag == flag
    }
}

pub fn names_flag(bits: u64, flag: u64) -> (present: bool)
    ensures
        present == spec_names_flag(bits, flag),
{
    if flag == 0 && bits != 0 {
        false
    } else {
        bits & flag == flag
    }
}

/// Appends a flag's name to the text of a flag set if the flag is present.
/// `first` says whether no name was written yet; the result says so of the
/// new text.
pub fn push_name(text: &mut String, first: bool, present: bool, name: &str) -> (still_first: bool)
    ensures
        final(text)@ == spec_with_name(old(text)@, first, present, name@),
        still_first == (first && !present),
{
    if present {
        if !first {
            text.append(" | ");
        }
        text.append(name);
    }
    first && !present
}

/// The text that closes a flag set: the mark of the empty set if no name was written.
pub open spec fn spec_flags_end(text: Seq<char>, first: bool) -> Seq<char> {
    if first {
        text + "(empty)"@
    } else {
        text
    }
}

pub fn push_flags_end(text: &mut String, first: bool)
    ensures
        final(text)@ == spec_flags_end(old(text)@, first),
{
    if first {
        text.append("(empty)");
    }
}

/// What cutting a word down to the bits of `all` does.
pub proof fn lemma_known_bits_u32(bits: u32, all: u32)
    ensures
        (bits & all) & !all == 0,
        bits & !all == 0 ==> bits & all == bits,
        0u32 & !all == 0,
        all & !all == 0,
{
    assert((bits & all) & !all == 0) by (bit_vector);
    assert(bits & !all == 0 ==> bits & all == bits) by (bit_vector);
    assert(0u32 & !all == 0) by (bit_vector);
    assert(all & !all == 0) by (bit_vector);
}

/// Two words within the bits of `all` have their union within them.
pub proof fn lemma_union_known_bits_u32(a: u32, b: u32, all: u32)
    ensures
        a & !all == 0 && b & !all == 0 ==> (a | b) & !all == 0,
{
    assert(a & !all == 0 && b & !all == 0 ==> (a | b) & !all == 0) by (bit_vector);
}

/// What cutting a word down to the bits of `all` does.
pub proof fn lemma_known_bits_u64(bits: u64, all: u64)
    ensures
        (bits & all) & !all == 0,
        bits & !all == 0 ==> bits & all == bits,
        0u64 & !all == 0,
        all & !all == 0,
{
    assert((bits & all) & !all == 0) by (bit_vector);
    assert(bits & !all == 0 ==> bits & all == bits) by (bit_vector);
    assert(0u64 & !all == 0) by (bit_vector);
    assert(all & !all == 0) by (bit_vector);
}

/// Two words within the bits of `all` have their union within them.
pub proof fn lemma_union_known_bits_u64(a: u64, b: u64, all: u64)
    ensures
        a & !all == 0 && b & !all == 0 ==> (a | b) & !all == 0,
{
    assert(a & !all == 0 && b & !all == 0 ==> (a | b) & !all == 0) by (bit_vector);
}

} // verus!
