//! Greeting keys: the hash of a greeting text, and how it is written down.

use std::collections::hash_map::DefaultHasher;
use std::hash::Hash;
use std::hash::Hasher;
use vstd::prelude::*;
use vstd::std_specs::hash::DefaultHasherAdditionalSpecFns;
use vstd::string::StringExecFns;

verus! {

/// What hashing a text writes into a hasher, as the sequence of byte blocks
/// it feeds. It depends on the text alone.
pub uninterp spec fn text_writes(text: Seq<char>) -> Seq<Seq<u8>>;

/// The key of a greeting text: what a fresh default hasher returns once the
/// text has been fed to it.
pub open spec fn key_of(text: Seq<char>) -> u64 {
    DefaultHasher::spec_finish(text_writes(text))
}

/// Feeds `text` to `state`.
///
/// Calls `<str as std::hash::Hash>::hash` on a `DefaultHasher`. The contract
/// claims only that the blocks written are a function of the text and are
/// appended to those written before; which blocks they are is left open.
#[verifier::external_body]
fn feed_text(text: &str, state: &mut DefaultHasher)
    ensures
        final(state)@ == old(state)@ + text_writes(text@),
{
    text.hash(state);
}

/// The key under which the audio of `text` is cached. Equal texts have equal
/// keys, in this process and in the next.
pub fn greeting_key(text: &str) -> (key: u64)
    ensures
        key == key_of(text@),
{
    let mut hasher = DefaultHasher::new();
    feed_text(text, &mut hasher);
    assert(hasher@ =~= text_writes(text@));
    hasher.finish()
}

/// The character that writes the decimal digit `d`.
pub open spec fn digit_char(d: nat) -> char
    recommends
        d < 10,
{
    if d == 0 {
        '0'
    } else if d == 1 {
        '1'
    } else if d == 2 {
        '2'
    } else if d == 3 {
        '3'
    } else if d == 4 {
        '4'
    } else if d == 5 {
        '5'
    } else if d == 6 {
        '6'
    } else if d == 7 {
        '7'
    } else if d == 8 {
        '8'
    } else {
        '9'
    }
}

/// The decimal numeral of `n`: its digits from the most significant down,
/// without leading zeros, and the single digit `0` for zero.
pub open spec fn decimal(n: nat) -> Seq<char>
    decreases n,
{
    if n < 10 {
        seq![digit_char(n)]
    } else {
        decimal(n / 10).push(digit_char(n % 10))
    }
}

/// The one-character string of a decimal digit.
fn digit_text(d: u64) -> (text: &'static str)
    requires
        d < 10,
    ensures
        text@ == seq![digit_char(d as nat)],
{
    proof {
        reveal_strlit("0");
        reveal_strlit("1");
        reveal_strlit("2");
        reveal_strlit("3");
        reveal_strlit("4");
        reveal_strlit("5");
        reveal_strlit("6");
        reveal_strlit("7");
        reveal_strlit("8");
        reveal_strlit("9");
    }
    let text = if d == 0 {
        "0"
    } else if d == 1 {
        "1"
    } else if d == 2 {
        "2"
    } else if d == 3 {
        "3"
    } else if d == 4 {
        "4"
    } else if d == 5 {
        "5"
    } else if d == 6 {
        "6"
    } else if d == 7 {
        "7"
    } else if d == 8 {
        "8"
    } else {
        "9"
    };
    assert(text@ =~= seq![digit_char(d as nat)]);
    text
}

/// Writes `key` as a decimal numeral: the name of its file in the cache.
pub fn key_name(key: u64) -> (name: String)
    ensures
        name@ == decimal(key as nat),
    decreases key,
{
    if key < 10 {
        String::from_str(digit_text(key))
    } else {
        let mut name = key_name(key / 10);
        name.append(digit_text(key % 10));
        assert(name@ =~= decimal(key as nat));
        name
    }
}

/// A numeral is never empty and holds digits only.
pub proof fn lemma_decimal_digits(n: nat)
    ensures
        decimal(n).len() >= 1,
        forall|i: int| 0 <= i < decimal(n).len() ==> '0' <= #[trigger] decimal(n)[i] <= '9',
    decreases n,
{
    if n >= 10 {
        lemma_decimal_digits(n / 10);
    }
}

/// The value that a sequence of digit characters denotes, read as a decimal
/// numeral.
pub open spec fn numeral_value(digits: Seq<char>) -> nat
    decreases digits.len(),
{
    if digits.len() == 0 {
        0
    } else {
        (10 * numeral_value(digits.drop_last()) + (digits.last() as nat - '0' as nat)) as nat
    }
}

/// Reading a numeral gives back the number it was written from.
pub proof fn lemma_decimal_value(n: nat)
    ensures
        numeral_value(decimal(n)) == n,
    decreases n,
{
    if n < 10 {
        let s = decimal(n);
        assert(s.drop_last() =~= Seq::<char>::empty());
        assert(numeral_value(s.drop_last()) == 0);
        assert(s.last() == digit_char(n));
    } else {
        lemma_decimal_value(n / 10);
        let s = decimal(n);
        assert(s.drop_last() =~= decimal(n / 10));
        assert(s.last() == digit_char(n % 10));
    }
}

/// Different keys have different names, so no two keys share a file.
pub proof fn lemma_decimal_injective(a: nat, b: nat)
    requires
        decimal(a) == decimal(b),
    ensures
        a == b,
{
    lemma_decimal_value(a);
    lemma_decimal_value(b);
}

} // verus!
