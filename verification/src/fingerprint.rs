//! The identity of a command: a 64-bit fingerprint of its text, and the
//! name of the file that holds its output.

use std::collections::hash_map::DefaultHasher;
use std::hash::Hasher;
use vstd::prelude::*;
use vstd::std_specs::hash::DefaultHasherAdditionalSpecFns;
use vstd::utf8::encode_utf8;

verus! {

/// The byte that closes a hashed string, so that no string's bytes are a
/// prefix of another's.
pub const STRING_TERMINATOR: u8 = 0xff;

/// The fingerprint of a command: what the default hasher makes of the UTF-8
/// bytes of its text, followed by the terminator. It depends on the text
/// alone.
pub open spec fn fingerprint(text: Seq<char>) -> u64 {
    DefaultHasher::spec_finish(seq![encode_utf8(text), seq![STRING_TERMINATOR]])
}

/// The decimal digit that stands for `d`.
pub open spec fn digit(d: nat) -> char
    recommends
        d < 10,
{
    (('0' as u8) + d) as char
}

/// A number in decimal, most significant digit first, without leading zeros.
pub open spec fn decimal(n: nat) -> Seq<char>
    decreases n,
{
    if n < 10 {
        seq![digit(n)]
    } else {
        decimal(n / 10).push(digit(n % 10))
    }
}

/// The name of the file that holds the output of a command: its fingerprint
/// in decimal.
pub open spec fn entry_name(text: Seq<char>) -> Seq<char> {
    decimal(fingerprint(text) as nat)
}

/// Fingerprints a command's text.
pub fn hash(t: &str) -> (value: u64)
    ensures
        value == fingerprint(t@),
{
    let terminator: [u8; 1] = [STRING_TERMINATOR];
    let mut hasher = DefaultHasher::new();
    hasher.write(t.as_bytes());
    hasher.write(terminator.as_slice());
    assert(terminator@ =~= seq![STRING_TERMINATOR]);
    assert(hasher@ =~= seq![encode_utf8(t@), seq![STRING_TERMINATOR]]);
    hasher.finish()
}

/// The fingerprint is a function of the text: texts that agree character by
/// character have one fingerprint, and so one file name.
pub proof fn lemma_fingerprint_is_deterministic(a: Seq<char>, b: Seq<char>)
    requires
        a =~= b,
    ensures
        fingerprint(a) == fingerprint(b),
        entry_name(a) == entry_name(b),
{
}

fn digit_text(d: u64) -> (text: &'static str)
    requires
        d < 10,
    ensures
        text@ == seq![digit(d as nat)],
{
    proof {
        reveal_strlit("0");
        reveal_strlit("1");
        reveal_strlit("2");
        reveal_strlit("3");
        reveal_strlit("4");
        reveal_strlit("5");
        reveal_strlit("6");
        reveal_strlit("7");
        reveal_strlit("8");
        reveal_strlit("9");
    }
    let text: &'static str = if d == 0 {
        "0"
    } else if d == 1 {
        "1"
    } else if d == 2 {
        "2"
    } else if d == 3 {
        "3"
    } else if d == 4 {
        "4"
    } else if d == 5 {
        "5"
    } else if d == 6 {
        "6"
    } else if d == 7 {
        "7"
    } else if d == 8 {
        "8"
    } else {
        "9"
    };
    text
}

fn append_decimal(n: u64, out: &mut String)
    ensures
        final(out)@ == old(out)@ + decimal(n as nat),
    decreases n,
{
    if n >= 10 {
        append_decimal(n / 10, out);
    }
    out.append(digit_text(n % 10));
}

/// Writes a number in decimal.
pub fn to_decimal(n: u64) -> (text: String)
    ensures
        text@ == decimal(n as nat),
{
    let mut text = String::new();
    append_decimal(n, &mut text);
    text
}

/// Names the file that holds the output of a command.
pub fn cache_file_name(command: &str) -> (name: String)
    ensures
        name@ == entry_name(command@),
{
    to_decimal(hash(command))
}

} // verus!
