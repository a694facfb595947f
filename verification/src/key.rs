//! Cache-key derivation.
//!
//! A URL is mapped to a stable, filesystem-safe identifier: the decimal
//! notation of a 64-bit FNV-1a hash of the URL's characters. The key is a
//! pure function of the URL alone, so repeated derivations agree, and URLs
//! whose hashes differ get distinct keys (hash collisions are accepted and
//! carry no resolution policy).

use vstd::prelude::*;

verus! {

/// Offset basis of the 64-bit FNV-1a hash.
pub const FNV_OFFSET_BASIS: u64 = 0xcbf2_9ce4_8422_2325;

/// Prime multiplier of the 64-bit FNV-1a hash.
pub const FNV_PRIME: u64 = 0x0000_0100_0000_01b3;

/// One FNV-1a step: fold a character into the accumulator.
pub open spec fn fnv1a_step(h: u64, c: char) -> u64 {
    vstd::wrapping::u64_specs::wrapping_mul(h ^ (c as u64), FNV_PRIME)
}

/// The 64-bit FNV-1a hash of a character sequence.
pub open spec fn fnv1a(s: Seq<char>) -> u64
    decreases s.len(),
{
    if s.len() == 0 {
        FNV_OFFSET_BASIS
    } else {
        fnv1a_step(fnv1a(s.drop_last()), s.last())
    }
}

/// The character for one decimal digit.
pub open spec fn digit_char(d: nat) -> char {
    if d == 0 {
        '0'
    } else if d == 1 {
        '1'
    } else if d == 2 {
        '2'
    } else if d == 3 {
        '3'
    } else if d == 4 {
        '4'
    } else if d == 5 {
        '5'
    } else if d == 6 {
        '6'
    } else if d == 7 {
        '7'
    } else if d == 8 {
        '8'
    } else {
        '9'
    }
}

/// The decimal notation of a natural number, most significant digit first.
pub open spec fn decimal_of(n: nat) -> Seq<char>
    decreases n,
{
    if n < 10 {
        seq![digit_char(n)]
    } else {
        decimal_of(n / 10).push(digit_char(n % 10))
    }
}

/// The cache key of a URL: the decimal notation of its FNV-1a hash.
pub open spec fn key_of(url: Seq<char>) -> Seq<char> {
    decimal_of(fnv1a(url) as nat)
}

/// Hash a string with 64-bit FNV-1a, one character at a time.
pub fn fnv1a_hash(s: &str) -> (h: u64)
    ensures
        h == fnv1a(s@),
{
    let n = s.unicode_len();
    let mut h: u64 = FNV_OFFSET_BASIS;
    let mut i: usize = 0;
    while i < n
        invariant
            i <= n,
            n == s@.len(),
            h == fnv1a(s@.subrange(0, i as int)),
        decreases n - i,
    {
        let c = s.get_char(i);
        h = (h ^ (c as u64)).wrapping_mul(FNV_PRIME);
        proof {
            let pre = s@.subrange(0, (i + 1) as int);
            assert(pre.drop_last() =~= s@.subrange(0, i as int));
            assert(pre.last() == s@[i as int]);
        }
        i = i + 1;
    }
    proof {
        assert(s@.subrange(0, n as int) =~= s@);
    }
    h
}

/// The one-character string for a decimal digit.
fn digit_str(d: u64) -> (r: &'static str)
    requires
        d < 10,
    ensures
        r@ == seq![digit_char(d as nat)],
{
    proof {
        reveal_strlit("0");
        reveal_strlit("1");
        reveal_strlit("2");
        reveal_strlit("3");
        reveal_strlit("4");
        reveal_strlit("5");
        reveal_strlit("6");
        reveal_strlit("7");
        reveal_strlit("8");
        reveal_strlit("9");
    }
    let r: &'static str = if d == 0 {
        "0"
    } else if d == 1 {
        "1"
    } else if d == 2 {
        "2"
    } else if d == 3 {
        "3"
    } else if d == 4 {
        "4"
    } else if d == 5 {
        "5"
    } else if d == 6 {
        "6"
    } else if d == 7 {
        "7"
    } else if d == 8 {
        "8"
    } else {
        "9"
    };
    proof {
        assert(r@ =~= seq![digit_char(d as nat)]);
    }
    r
}

/// Append the decimal notation of `n` to `s`.
fn push_decimal(s: &mut String, n: u64)
    ensures
        final(s)@ == old(s)@ + decimal_of(n as nat),
    decreases n,
{
    if n < 10 {
        s.append(digit_str(n));
        proof {
            assert(s@ =~= old(s)@ + decimal_of(n as nat));
        }
    } else {
        push_decimal(s, n / 10);
        s.append(digit_str(n % 10));
        proof {
            assert(s@ =~= old(s)@ + decimal_of(n as nat));
        }
    }
}

/// Whether a character is a decimal digit.
pub open spec fn is_decimal_digit(c: char) -> bool {
    48 <= c as u32 <= 57
}

proof fn lemma_digit_char_injective(d1: nat, d2: nat)
    requires
        d1 < 10,
        d2 < 10,
        digit_char(d1) == digit_char(d2),
    ensures
        d1 == d2,
{
}

proof fn lemma_digit_char_is_digit(d: nat)
    requires
        d < 10,
    ensures
        is_decimal_digit(digit_char(d)),
{
}

/// Powers of ten.
pub open spec fn pow10(k: nat) -> nat
    decreases k,
{
    if k == 0 {
        1
    } else {
        10 * pow10((k - 1) as nat)
    }
}

proof fn lemma_decimal_len(n: nat, k: nat)
    requires
        1 <= k,
        n < pow10(k),
    ensures
        1 <= decimal_of(n).len() <= k,
    decreases k,
{
    if n < 10 {
    } else {
        assert(pow10(k) == 10 * pow10((k - 1) as nat));
        lemma_decimal_len(n / 10, (k - 1) as nat);
    }
}

proof fn lemma_decimal_all_digits(n: nat)
    ensures
        forall|i: int| 0 <= i < decimal_of(n).len() ==> is_decimal_digit(#[trigger] decimal_of(n)[i]),
    decreases n,
{
    if n < 10 {
        lemma_digit_char_is_digit(n);
    } else {
        lemma_decimal_all_digits(n / 10);
        lemma_digit_char_is_digit(n % 10);
        assert(decimal_of(n) == decimal_of(n / 10).push(digit_char(n % 10)));
        assert forall|i: int| 0 <= i < decimal_of(n).len() implies is_decimal_digit(
            #[trigger] decimal_of(n)[i],
        ) by {
            if i < decimal_of(n / 10).len() {
                assert(decimal_of(n)[i] == decimal_of(n / 10)[i]);
            } else {
                assert(decimal_of(n)[i] == digit_char(n % 10));
            }
        }
    }
}

proof fn lemma_decimal_nonempty(n: nat)
    ensures
        decimal_of(n).len() >= 1,
{
}

proof fn lemma_decimal_injective(a: nat, b: nat)
    requires
        decimal_of(a) == decimal_of(b),
    ensures
        a == b,
    decreases a + b,
{
    if a < 10 && b < 10 {
        assert(decimal_of(a) == seq![digit_char(a)]);
        assert(decimal_of(b) == seq![digit_char(b)]);
        assert(seq![digit_char(a)][0] == digit_char(a));
        assert(seq![digit_char(b)][0] == digit_char(b));
        lemma_digit_char_injective(a, b);
    } else if a < 10 {
        lemma_decimal_nonempty(b / 10);
        assert(decimal_of(b).len() >= 2);
    } else if b < 10 {
        lemma_decimal_nonempty(a / 10);
        assert(decimal_of(a).len() >= 2);
    } else {
        assert(decimal_of(a) == decimal_of(a / 10).push(digit_char(a % 10)));
        assert(decimal_of(b) == decimal_of(b / 10).push(digit_char(b % 10)));
        assert(decimal_of(a).last() == digit_char(a % 10));
        assert(decimal_of(b).last() == digit_char(b % 10));
        lemma_digit_char_injective(a % 10, b % 10);
        assert(decimal_of(a).drop_last() =~= decimal_of(a / 10));
        assert(decimal_of(b).drop_last() =~= decimal_of(b / 10));
        lemma_decimal_injective(a / 10, b / 10);
    }
}

/// Law: key derivation is deterministic — equal URLs derive equal keys,
/// whatever else (time, headers, the caching flag) differs between the calls.
pub proof fn lemma_derive_deterministic(u1: Seq<char>, u2: Seq<char>)
    requires
        u1 == u2,
    ensures
        key_of(u1) == key_of(u2),
{
}

/// Law: distinct URLs whose hashes do not collide derive distinct keys.
pub proof fn lemma_derive_injective_without_collision(u1: Seq<char>, u2: Seq<char>)
    requires
        u1 != u2,
        fnv1a(u1) != fnv1a(u2),
    ensures
        key_of(u1) != key_of(u2),
{
    if key_of(u1) == key_of(u2) {
        lemma_decimal_injective(fnv1a(u1) as nat, fnv1a(u2) as nat);
    }
}

/// Law: a derived key is a valid single path segment — non-empty, at most
/// twenty characters, and made of decimal digits only (so it holds no path
/// separator and no reserved name).
pub proof fn lemma_key_is_path_segment(u: Seq<char>)
    ensures
        1 <= key_of(u).len() <= 20,
        forall|i: int| 0 <= i < key_of(u).len() ==> is_decimal_digit(#[trigger] key_of(u)[i]),
{
    assert(pow10(20) > u64::MAX) by {
        reveal_with_fuel(pow10, 21);
    }
    lemma_decimal_len(fnv1a(u) as nat, 20);
    lemma_decimal_all_digits(fnv1a(u) as nat);
}

/// Derives cache keys from URLs.
pub struct KeyDeriver;

impl KeyDeriver {
    /// Derive the cache key for a URL: deterministic in the URL's characters
    /// and usable as a single path segment.
    pub fn derive(url: &str) -> (k: String)
        ensures
            k@ == key_of(url@),
    {
        let h = fnv1a_hash(url);
        let mut k = String::new();
        push_decimal(&mut k, h);
        k
    }
}

} // verus!
