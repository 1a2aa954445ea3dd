//! What the flag types share: the bit facts behind each type's
//! `lemma_flag_laws`, and the text form of a flag value, which names the
//! defined flags that are set and shows the remaining bits in hex.

use vstd::prelude::*;

verus! {

/// Truncating keeps only defined bits: the flags that `from_bits_truncate`
/// gives are accepted unchanged by `from_bits`, and truncating them again
/// changes nothing.
pub(crate) proof fn lemma_truncate_is_representable(bits: u32, all: u32)
    ensures
        (bits & all) & all == bits & all,
{
    assert((bits & all) & all == bits & all) by (bit_vector);
}

/// After `insert(other)` the flags contain `other`, and still contain what
/// they contained before.
pub(crate) proof fn lemma_insert_contains(flags: u32, other: u32)
    ensures
        (flags | other) & other == other,
        (flags | other) & flags == flags,
{
    assert((flags | other) & other == other) by (bit_vector);
    assert((flags | other) & flags == flags) by (bit_vector);
}

/// After `remove(other)` the flags share no flag with `other`.
pub(crate) proof fn lemma_remove_disjoint(flags: u32, other: u32)
    ensures
        (flags & !other) & other == 0,
{
    assert((flags & !other) & other == 0) by (bit_vector);
}

/// `contains` is `union` leaving the flags unchanged.
pub(crate) proof fn lemma_contains_iff_union_unchanged(flags: u32, other: u32)
    ensures
        (flags & other == other) <==> (flags | other == flags),
{
    assert((flags & other == other) <==> (flags | other == flags)) by (bit_vector);
}

/// The same laws for flags whose bits are signed.
pub(crate) proof fn lemma_signed_flag_laws(flags: i32, other: i32, all: i32)
    ensures
        (flags & all) & all == flags & all,
        (flags | other) & other == other,
        (flags | other) & flags == flags,
        (flags & !other) & other == 0,
        (flags & other == other) <==> (flags | other == flags),
{
    assert((flags & all) & all == flags & all) by (bit_vector);
    assert((flags | other) & other == other) by (bit_vector);
    assert((flags | other) & flags == flags) by (bit_vector);
    assert((flags & !other) & other == 0) by (bit_vector);
    assert((flags & other == other) <==> (flags | other == flags)) by (bit_vector);
}

/// The lowercase hex digit of `d`, for `d < 16`.
pub open spec fn hex_digit(d: u32) -> Seq<char> {
    if d == 0 { "0"@ } else if d == 1 { "1"@ } else if d == 2 { "2"@ } else if d == 3 { "3"@ }
    else if d == 4 { "4"@ } else if d == 5 { "5"@ } else if d == 6 { "6"@ } else if d == 7 { "7"@ }
    else if d == 8 { "8"@ } else if d == 9 { "9"@ } else if d == 10 { "a"@ } else if d == 11 { "b"@ }
    else if d == 12 { "c"@ } else if d == 13 { "d"@ } else if d == 14 { "e"@ } else { "f"@ }
}

/// `x` in lowercase hex, without leading zeros.
pub open spec fn hex(x: u32) -> Seq<char>
    decreases x,
{
    if x < 16 {
        hex_digit(x)
    } else {
        hex(x / 16) + hex_digit(x % 16)
    }
}

/// What is shown of the flags still to name: nothing when no bits are left,
/// else the bits in hex, after a separator when a name was shown before.
pub open spec fn finish_text(acc: Seq<char>, remaining: u32, first: bool) -> Seq<char> {
    if remaining == 0 {
        acc
    } else if first {
        acc + "0x"@ + hex(remaining)
    } else {
        acc + " | "@ + "0x"@ + hex(remaining)
    }
}

/// Naming the flags of `source` from the defined flag at `i` on, with
/// `remaining` the bits no name has shown yet and `acc` the text so far: a
/// defined flag is named when all its bits are set in `source` and some of
/// them are still to be shown; naming stops once no bits are left.
pub open spec fn walk_text(
    names: Seq<Seq<char>>,
    values: Seq<u32>,
    source: u32,
    i: int,
    remaining: u32,
    first: bool,
    acc: Seq<char>,
) -> Seq<char>
    decreases values.len() - i,
{
    if i < 0 || i >= values.len() || remaining == 0 {
        finish_text(acc, remaining, first)
    } else if source & values[i] == values[i] && remaining & values[i] != 0 {
        walk_text(
            names,
            values,
            source,
            i + 1,
            remaining & !values[i],
            false,
            if first { acc + names[i] } else { acc + " | "@ + names[i] },
        )
    } else {
        walk_text(names, values, source, i + 1, remaining, first, acc)
    }
}

/// The text of a flag value of the type named `kind`, whose defined
/// flags are named `names` and have the bits `values`: `Type(0x0)` when no
/// bit is set, else `Type(A | B | 0x..)`.
pub open spec fn flag_text(
    kind: Seq<char>,
    names: Seq<Seq<char>>,
    values: Seq<u32>,
    source: u32,
) -> Seq<char> {
    if source == 0 {
        kind + "(0x0)"@
    } else {
        walk_text(names, values, source, 0, source, true, kind + "("@) + ")"@
    }
}

fn hex_digit_str(d: u32) -> (r: &'static str)
    requires
        d < 16,
    ensures
        r@ == hex_digit(d),
{
    if d == 0 { "0" } else if d == 1 { "1" } else if d == 2 { "2" } else if d == 3 { "3" }
    else if d == 4 { "4" } else if d == 5 { "5" } else if d == 6 { "6" } else if d == 7 { "7" }
    else if d == 8 { "8" } else if d == 9 { "9" } else if d == 10 { "a" } else if d == 11 { "b" }
    else if d == 12 { "c" } else if d == 13 { "d" } else if d == 14 { "e" } else { "f" }
}

fn append_hex(text: &mut String, x: u32)
    ensures
        final(text)@ == old(text)@ + hex(x),
    decreases x,
{
    if x >= 16 {
        append_hex(text, x / 16);
    }
    text.append(hex_digit_str(x % 16));
    proof {
        if x >= 16 {
            assert(old(text)@ + hex(x / 16) + hex_digit(x % 16) == old(text)@ + hex(x));
        } else {
            assert(x % 16 == x);
        }
    }
}

/// The text of a flag value; see `flag_text`.
pub(crate) fn flag_text_of(
    kind: &str,
    names: &[&'static str],
    values: &[u32],
    source: u32,
) -> (r: String)
    requires
        names@.len() == values@.len(),
    ensures
        r@ == flag_text(kind@, names@.map_values(|n: &'static str| n@), values@, source),
{
    let ghost name_views = names@.map_values(|n: &'static str| n@);
    let mut text = String::new();
    text.append(kind);
    assert(text@ =~= kind@);
    if source == 0 {
        text.append("(0x0)");
        return text;
    }
    text.append("(");
    let ghost start = text@;
    assert(start == kind@ + "("@);
    let mut remaining = source;
    let mut first = true;
    let mut i: usize = 0;
    while i < values.len()
        invariant
            names@.len() == values@.len(),
            name_views == names@.map_values(|n: &'static str| n@),
            i <= values@.len(),
            walk_text(name_views, values@, source, i as int, remaining, first, text@)
                == walk_text(name_views, values@, source, 0, source, true, start),
        ensures
            walk_text(name_views, values@, source, i as int, remaining, first, text@)
                == walk_text(name_views, values@, source, 0, source, true, start),
            i >= values@.len() || remaining == 0,
        decreases values.len() - i,
    {
        if remaining == 0 {
            break;
        }
        let ghost before = text@;
        let ghost old_remaining = remaining;
        let ghost old_first = first;
        let bits = values[i];
        assert(name_views[i as int] == names@[i as int]@);
        if source & bits == bits && remaining & bits != 0 {
            if !first {
                text.append(" | ");
            }
            text.append(names[i]);
            remaining = remaining & !bits;
            first = false;
        }
        assert(walk_text(name_views, values@, source, i as int, old_remaining, old_first, before)
            == walk_text(name_views, values@, source, i + 1, remaining, first, text@));
        i = i + 1;
    }
    assert(walk_text(name_views, values@, source, i as int, remaining, first, text@)
        == finish_text(text@, remaining, first));
    if remaining != 0 {
        if !first {
            text.append(" | ");
        }
        text.append("0x");
        append_hex(&mut text, remaining);
    }
    text.append(")");
    text
}

} // verus!
