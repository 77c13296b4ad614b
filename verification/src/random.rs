//! Random values: spin rolls and secrets.

use vstd::prelude::*;

verus! {

/// A fresh `std::collections::hash_map::RandomState`, through
/// `RandomState::new`; its keys are random, and nothing is promised of them.
#[verifier::external_body]
fn new_random_state() -> std::collections::hash_map::RandomState {
    std::collections::hash_map::RandomState::new()
}

/// The hash of the byte 0 under the state's random keys, through
/// `BuildHasher::hash_one`. Nothing is promised of the value.
#[verifier::external_body]
fn hash_zero(state: &std::collections::hash_map::RandomState) -> u64 {
    std::hash::BuildHasher::hash_one(state, 0u8)
}

/// A value drawn from a fresh random hasher state. Nothing is promised of
/// it.
pub(crate) fn random_u64() -> u64 {
    let state = new_random_state();
    hash_zero(&state)
}

/// Whether `c` is a lowercase hexadecimal digit.
pub open spec fn is_hex_char(c: char) -> bool {
    ('0' <= c && c <= '9') || ('a' <= c && c <= 'f')
}

/// Whether every character of `s` is a lowercase hexadecimal digit.
pub open spec fn is_hex_text(s: Seq<char>) -> bool {
    forall|i: int| 0 <= i < s.len() ==> is_hex_char(#[trigger] s[i])
}

/// The lowercase hexadecimal digit of `d`.
pub open spec fn hex_char(d: u64) -> char {
    if d < 10 {
        (('0' as u64) + d) as char
    } else {
        (('a' as u64) + (d - 10)) as char
    }
}

fn hex_digit(d: u64) -> (r: char)
    requires
        d < 16,
    ensures
        r == hex_char(d),
        is_hex_char(r),
{
    if d == 0 { '0' }
    else if d == 1 { '1' }
    else if d == 2 { '2' }
    else if d == 3 { '3' }
    else if d == 4 { '4' }
    else if d == 5 { '5' }
    else if d == 6 { '6' }
    else if d == 7 { '7' }
    else if d == 8 { '8' }
    else if d == 9 { '9' }
    else if d == 10 { 'a' }
    else if d == 11 { 'b' }
    else if d == 12 { 'c' }
    else if d == 13 { 'd' }
    else if d == 14 { 'e' }
    else { 'f' }
}

/// The `n` lowest hexadecimal digits of `x`, most significant first.
pub open spec fn hex_digits(x: nat, n: nat) -> Seq<char>
    decreases n,
{
    if n == 0 {
        Seq::empty()
    } else {
        hex_digits(x / 16, (n - 1) as nat).push(hex_char((x % 16) as u64))
    }
}

/// Hexadecimal digits are lowercase hexadecimal characters.
proof fn lemma_hex_digits_are_hex(x: nat, n: nat)
    ensures
        hex_digits(x, n).len() == n,
        is_hex_text(hex_digits(x, n)),
    decreases n,
{
    if n > 0 {
        lemma_hex_digits_are_hex(x / 16, (n - 1) as nat);
        let d = (x % 16) as u64;
        assert(is_hex_char(hex_char(d))) by {
            assert(d < 16);
        }
        let s = hex_digits(x, n);
        assert forall|i: int| 0 <= i < s.len() implies is_hex_char(#[trigger] s[i]) by {
            if i < n - 1 {
                assert(s[i] == hex_digits(x / 16, (n - 1) as nat)[i]);
            }
        }
    }
}

/// Appends the sixteen lowercase hexadecimal digits of `x`, most
/// significant first.
fn push_hex16(out: &mut Vec<char>, x: u64)
    ensures
        final(out)@ == old(out)@ + hex_digits(x as nat, 16),
{
    let mut digits: Vec<char> = Vec::new();
    let mut v = x;
    let mut k: usize = 0;
    while k < 16
        invariant
            k <= 16,
            digits@.len() == k,
            hex_digits(x as nat, 16) == hex_digits(v as nat, (16 - k) as nat) + digits@.reverse(),
        decreases 16 - k,
    {
        let c = hex_digit(v % 16);
        proof {
            let n = (16 - k) as nat;
            assert(hex_digits(v as nat, n) == hex_digits((v / 16) as nat, (n - 1) as nat).push(c));
            assert(digits@.push(c).reverse() =~= seq![c] + digits@.reverse());
            assert(hex_digits(v as nat, n) + digits@.reverse() =~= hex_digits(
                (v / 16) as nat,
                (n - 1) as nat,
            ) + digits@.push(c).reverse());
        }
        digits.push(c);
        v = v / 16;
        k += 1;
    }
    proof {
        assert(hex_digits(x as nat, 16) =~= digits@.reverse());
    }
    let ghost start = out@;
    let ghost rev = digits@.reverse();
    let mut j: usize = 16;
    while j > 0
        invariant
            j <= 16,
            digits@.len() == 16,
            rev == digits@.reverse(),
            out@ == start + rev.take(16 - j),
        decreases j,
    {
        j -= 1;
        out.push(digits[j]);
        proof {
            assert(rev[15 - j] == digits@[j as int]);
            assert(rev.take(16 - j) =~= rev.take(15 - j).push(rev[15 - j]));
        }
    }
    proof {
        assert(rev.take(16) =~= rev);
    }
}

/// The secret made of two drawn values: the sixteen hexadecimal digits of
/// each, in turn.
pub fn secret_of(a: u64, b: u64) -> (r: String)
    ensures
        r@ == hex_digits(a as nat, 16) + hex_digits(b as nat, 16),
        r@.len() == 32,
        is_hex_text(r@),
{
    let mut chars: Vec<char> = Vec::new();
    push_hex16(&mut chars, a);
    push_hex16(&mut chars, b);
    proof {
        lemma_hex_digits_are_hex(a as nat, 16);
        lemma_hex_digits_are_hex(b as nat, 16);
        assert(chars@ =~= hex_digits(a as nat, 16) + hex_digits(b as nat, 16));
        let s = chars@;
        assert forall|i: int| 0 <= i < s.len() implies is_hex_char(#[trigger] s[i]) by {
            if i < 16 {
                assert(s[i] == hex_digits(a as nat, 16)[i]);
            } else {
                assert(s[i] == hex_digits(b as nat, 16)[i - 16]);
            }
        }
    }
    crate::text::string_of(&chars)
}

/// A fresh secret: thirty-two lowercase hexadecimal digits made from two
/// random values (see `secret_of`).
pub fn generate_secret() -> (r: String)
    ensures
        r@.len() == 32,
        is_hex_text(r@),
{
    let a = random_u64();
    let b = random_u64();
    secret_of(a, b)
}

} // verus!
