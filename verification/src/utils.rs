//! The hashing utility: a 64-bit digest of bytes, and its rendering as text.

use std::collections::hash_map::DefaultHasher;
use std::hash::Hasher;
use vstd::prelude::*;
use vstd::std_specs::hash::DefaultHasherAdditionalSpecFns;
use vstd::string::StringExecFns;

verus! {

/// The digest of a byte string: what the standard hasher, freshly made,
/// reports after one write of exactly these bytes.
pub open spec fn spec_hash(data: Seq<u8>) -> u64 {
    DefaultHasher::spec_finish(seq![data])
}

/// Deterministic 64-bit digest of `data`.
pub fn hash(data: &[u8]) -> (digest: u64)
    ensures
        digest == spec_hash(data@),
{
    let mut hasher = DefaultHasher::new();
    hasher.write(data);
    assert(hasher@ =~= seq![data@]);
    hasher.finish()
}

/// The lower-case hexadecimal digit for a value below sixteen.
pub open spec fn spec_hex_digit(d: nat) -> char
    recommends
        d < 16,
{
    if d == 0 {
        '0'
    } else if d == 1 {
        '1'
    } else if d == 2 {
        '2'
    } else if d == 3 {
        '3'
    } else if d == 4 {
        '4'
    } else if d == 5 {
        '5'
    } else if d == 6 {
        '6'
    } else if d == 7 {
        '7'
    } else if d == 8 {
        '8'
    } else if d == 9 {
        '9'
    } else if d == 10 {
        'a'
    } else if d == 11 {
        'b'
    } else if d == 12 {
        'c'
    } else if d == 13 {
        'd'
    } else if d == 14 {
        'e'
    } else {
        'f'
    }
}

/// A number in lower-case hexadecimal, most significant digit first, without
/// leading zeros; zero is the single digit `0`.
pub open spec fn spec_hex(value: nat) -> Seq<char>
    decreases value,
{
    if value < 16 {
        seq![spec_hex_digit(value)]
    } else {
        spec_hex(value / 16).push(spec_hex_digit(value % 16))
    }
}

/// A number has one hexadecimal digit exactly when it is below sixteen.
pub proof fn lemma_hex_len(value: nat)
    ensures
        spec_hex(value).len() >= 1,
        spec_hex(value).len() == 1 <==> value < 16,
    decreases value,
{
    if value >= 16 {
        lemma_hex_len(value / 16);
    }
}

/// Distinct digits have distinct characters.
pub proof fn lemma_hex_digit_injective(x: nat, y: nat)
    requires
        x < 16,
        y < 16,
        spec_hex_digit(x) == spec_hex_digit(y),
    ensures
        x == y,
{
}

/// Distinct numbers have distinct hexadecimal texts.
pub proof fn lemma_hex_injective(a: nat, b: nat)
    requires
        spec_hex(a) == spec_hex(b),
    ensures
        a == b,
    decreases a,
{
    lemma_hex_len(a);
    lemma_hex_len(b);
    if a < 16 {
        assert(spec_hex(a)[0] == spec_hex_digit(a));
        assert(spec_hex(b)[0] == spec_hex_digit(b));
        lemma_hex_digit_injective(a, b);
    } else {
        let front_a = spec_hex(a / 16);
        let front_b = spec_hex(b / 16);
        assert(spec_hex(a).last() == spec_hex_digit(a % 16));
        assert(spec_hex(b).last() == spec_hex_digit(b % 16));
        lemma_hex_digit_injective(a % 16, b % 16);
        assert(front_a =~= spec_hex(a).drop_last());
        assert(front_b =~= spec_hex(b).drop_last());
        lemma_hex_injective(a / 16, b / 16);
    }
}

fn digit_text(d: u64) -> (text: &'static str)
    requires
        d < 16,
    ensures
        text@ == seq![spec_hex_digit(d as nat)],
{
    proof {
        reveal_strlit("0");
        reveal_strlit("1");
        reveal_strlit("2");
        reveal_strlit("3");
        reveal_strlit("4");
        reveal_strlit("5");
        reveal_strlit("6");
        reveal_strlit("7");
        reveal_strlit("8");
        reveal_strlit("9");
        reveal_strlit("a");
        reveal_strlit("b");
        reveal_strlit("c");
        reveal_strlit("d");
        reveal_strlit("e");
        reveal_strlit("f");
    }
    let text = if d == 0 {
        "0"
    } else if d == 1 {
        "1"
    } else if d == 2 {
        "2"
    } else if d == 3 {
        "3"
    } else if d == 4 {
        "4"
    } else if d == 5 {
        "5"
    } else if d == 6 {
        "6"
    } else if d == 7 {
        "7"
    } else if d == 8 {
        "8"
    } else if d == 9 {
        "9"
    } else if d == 10 {
        "a"
    } else if d == 11 {
        "b"
    } else if d == 12 {
        "c"
    } else if d == 13 {
        "d"
    } else if d == 14 {
        "e"
    } else {
        "f"
    };
    assert(text@ =~= seq![spec_hex_digit(d as nat)]);
    text
}

/// Renders a digest in lower-case hexadecimal.
pub fn hex(value: u64) -> (text: String)
    ensures
        text@ == spec_hex(value as nat),
    decreases value,
{
    if value < 16 {
        String::from_str(digit_text(value))
    } else {
        let mut text = hex(value / 16);
        text.append(digit_text(value % 16));
        assert(text@ =~= spec_hex(value as nat));
        text
    }
}

} // verus!
