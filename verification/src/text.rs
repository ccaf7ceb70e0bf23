//! Small verified text utilities shared by the rest of the library:
//! string equality, blank detection, and integer formatting.

use vstd::prelude::*;
use vstd::string::StringSliceAdditionalSpecFns;
use vstd::utf8::{encode_utf8, encode_utf8_decode_utf8};

verus! {

/// Number of bytes in the UTF-8 encoding of a character sequence; this is
/// what `str::len` returns for a `&str` whose view is `s`.
pub open spec fn utf8_len(s: Seq<char>) -> nat {
    encode_utf8(s).len()
}

/// A whitespace character: the Unicode White_Space set, which is what
/// trimming a string recognises.
pub open spec fn is_space_char(c: char) -> bool {
    ||| c == '\u{9}' || c == '\u{A}' || c == '\u{B}' || c == '\u{C}' || c == '\u{D}'
    ||| c == ' '
    ||| c == '\u{85}'
    ||| c == '\u{A0}'
    ||| c == '\u{1680}'
    ||| ('\u{2000}' <= c && c <= '\u{200A}')
    ||| c == '\u{2028}' || c == '\u{2029}'
    ||| c == '\u{202F}'
    ||| c == '\u{205F}'
    ||| c == '\u{3000}'
}

/// A sequence made only of whitespace (so trimming leaves nothing).
pub open spec fn is_blank(s: Seq<char>) -> bool {
    forall|i: int| 0 <= i < s.len() ==> is_space_char(#[trigger] s[i])
}

fn space_char(c: char) -> (r: bool)
    ensures
        r == is_space_char(c),
{
    c == '\u{9}' || c == '\u{A}' || c == '\u{B}' || c == '\u{C}' || c == '\u{D}' || c == ' ' || c
        == '\u{85}' || c == '\u{A0}' || c == '\u{1680}' || ('\u{2000}' <= c && c <= '\u{200A}')
        || c == '\u{2028}' || c == '\u{2029}' || c == '\u{202F}' || c == '\u{205F}' || c
        == '\u{3000}'
}

/// True when the string contains nothing but whitespace.
pub fn str_is_blank(s: &str) -> (r: bool)
    ensures
        r == is_blank(s@),
{
    let n = s.unicode_len();
    let mut i: usize = 0;
    while i < n
        invariant
            n == s@.len(),
            0 <= i <= n,
            forall|j: int| 0 <= j < i ==> is_space_char(#[trigger] s@[j]),
        decreases n - i,
    {
        if !space_char(s.get_char(i)) {
            return false;
        }
        i = i + 1;
    }
    true
}

/// An optional string carrying exactly the optional text.
pub open spec fn opt_text_eq(a: Option<String>, b: Option<Seq<char>>) -> bool {
    match (a, b) {
        (Option::Some(s), Option::Some(t)) => s@ == t,
        (Option::None, Option::None) => true,
        _ => false,
    }
}

/// Relies on `String::push` of std, which vstd gives no specification:
/// appends the one character to the string.
#[verifier::external_body]
pub fn push_char(s: &mut String, c: char)
    ensures
        final(s)@ == old(s)@.push(c),
{
    s.push(c);
}

/// True when the two string slices hold the same characters.
pub fn str_eq(a: &str, b: &str) -> (r: bool)
    ensures
        r == (a@ == b@),
{
    let ab = a.as_bytes();
    let bb = b.as_bytes();
    if ab.len() != bb.len() {
        proof {
            assert(a@ != b@) by {
                if a@ == b@ {
                    assert(encode_utf8(a@) == encode_utf8(b@));
                }
            }
        }
        return false;
    }
    let n = ab.len();
    let mut i: usize = 0;
    while i < n
        invariant
            n == ab@.len() == bb@.len(),
            ab@ == a.spec_bytes(),
            bb@ == b.spec_bytes(),
            0 <= i <= n,
            forall|j: int| 0 <= j < i ==> ab@[j] == bb@[j],
        decreases n - i,
    {
        if ab[i] != bb[i] {
            proof {
                assert(a@ != b@) by {
                    if a@ == b@ {
                        assert(encode_utf8(a@) == encode_utf8(b@));
                    }
                }
            }
            return false;
        }
        i = i + 1;
    }
    proof {
        assert(a.spec_bytes() =~= b.spec_bytes());
        encode_utf8_decode_utf8(a@);
        encode_utf8_decode_utf8(b@);
    }
    true
}

/// The sequence with every trailing `c` removed.
pub open spec fn spec_trim_trailing(s: Seq<char>, c: char) -> Seq<char>
    decreases s.len(),
{
    if s.len() > 0 && s.last() == c {
        spec_trim_trailing(s.drop_last(), c)
    } else {
        s
    }
}

/// Returns the string with every trailing `c` removed.
pub fn trim_trailing(s: &str, c: char) -> (r: String)
    ensures
        r@ == spec_trim_trailing(s@, c),
{
    let n = s.unicode_len();
    let mut end = n;
    proof {
        assert(s@.subrange(0, n as int) =~= s@);
    }
    while end > 0 && s.get_char(end - 1) == c
        invariant
            n == s@.len(),
            0 <= end <= n,
            spec_trim_trailing(s@, c) == spec_trim_trailing(s@.subrange(0, end as int), c),
        decreases end,
    {
        proof {
            let sub = s@.subrange(0, end as int);
            assert(sub.last() == s@[end - 1]);
            assert(sub.drop_last() =~= s@.subrange(0, end as int - 1));
        }
        end = end - 1;
    }
    let r = s.substring_char(0, end);
    proof {
        let sub = s@.subrange(0, end as int);
        if end > 0 {
            assert(sub.last() == s@[end as int - 1]);
        }
        assert(spec_trim_trailing(sub, c) == sub);
    }
    r.to_owned()
}

/// The sequence with one copy of the suffix removed from its end, when it
/// ends with that suffix; the sequence unchanged otherwise.
pub open spec fn spec_strip_suffix(s: Seq<char>, suffix: Seq<char>) -> Seq<char> {
    if suffix.len() <= s.len() && s.subrange(s.len() - suffix.len(), s.len() as int) == suffix {
        s.take(s.len() - suffix.len())
    } else {
        s
    }
}

/// Returns the string with one copy of the suffix removed from its end, when
/// it ends with that suffix, and unchanged otherwise.
pub fn strip_suffix(s: &str, suffix: &str) -> (r: String)
    ensures
        r@ == spec_strip_suffix(s@, suffix@),
{
    let n = s.unicode_len();
    let m = suffix.unicode_len();
    if m > n {
        return s.to_owned();
    }
    let mut i: usize = 0;
    while i < m
        invariant
            n == s@.len(),
            m == suffix@.len(),
            m <= n,
            0 <= i <= m,
            forall|j: int| 0 <= j < i ==> s@[n - m + j] == suffix@[j],
        decreases m - i,
    {
        if s.get_char(n - m + i) != suffix.get_char(i) {
            proof {
                assert(s@.subrange(n as int - m as int, n as int)[i as int] == s@[n - m + i]);
                assert(s@.subrange(n as int - m as int, n as int) != suffix@);
            }
            return s.to_owned();
        }
        i = i + 1;
    }
    proof {
        assert(s@.subrange(n as int - m as int, n as int) =~= suffix@);
    }
    let r = s.substring_char(0, n - m);
    proof {
        assert(r@ =~= spec_strip_suffix(s@, suffix@));
    }
    r.to_owned()
}

/// The pattern occurs somewhere in the sequence.
pub open spec fn spec_contains(s: Seq<char>, pat: Seq<char>) -> bool {
    exists|i: int|
        0 <= i <= s.len() - pat.len() && #[trigger] s.subrange(i, i + pat.len() as int) == pat
}

/// The pattern matches the characters of `s` starting at `i`.
fn match_at(s: &str, i: usize, pat: &str) -> (r: bool)
    requires
        i + pat@.len() <= s@.len(),
    ensures
        r == (s@.subrange(i as int, i as int + pat@.len() as int) == pat@),
{
    let n = s.unicode_len();
    let m = pat.unicode_len();
    let mut j: usize = 0;
    while j < m
        invariant
            n == s@.len(),
            m == pat@.len(),
            i + m <= n,
            0 <= j <= m,
            forall|l: int| 0 <= l < j ==> s@[i + l] == pat@[l],
        decreases m - j,
    {
        if s.get_char(i + j) != pat.get_char(j) {
            proof {
                assert(s@.subrange(i as int, i as int + m as int)[j as int] == s@[i + j]);
            }
            return false;
        }
        j = j + 1;
    }
    proof {
        assert(s@.subrange(i as int, i as int + m as int) =~= pat@);
    }
    true
}

/// True when the string contains the pattern as a substring.
pub fn str_contains(s: &str, pat: &str) -> (r: bool)
    ensures
        r == spec_contains(s@, pat@),
{
    let n = s.unicode_len();
    let m = pat.unicode_len();
    if m > n {
        return false;
    }
    let mut i: usize = 0;
    loop
        invariant
            n == s@.len(),
            m == pat@.len(),
            m <= n,
            0 <= i <= n - m,
            forall|k: int| 0 <= k < i ==> #[trigger] s@.subrange(k, k + m as int) != pat@,
        decreases n - m - i,
    {
        if match_at(s, i, pat) {
            return true;
        }
        if i == n - m {
            proof {
                assert(forall|k: int|
                    0 <= k <= n - m ==> #[trigger] s@.subrange(k, k + m as int) != pat@);
            }
            return false;
        }
        i = i + 1;
    }
}

/// One character as the environment-variable name rule writes it: hyphens
/// become underscores, ASCII lower case becomes upper case.
pub open spec fn spec_env_char(c: char) -> char {
    if c == '-' {
        '_'
    } else if 'a' <= c <= 'z' {
        (((c as u8) - 32) as char)
    } else {
        c
    }
}

/// The environment variable that names a service's API key: the service name
/// upper-cased with hyphens as underscores, then "_API_KEY".
pub open spec fn spec_env_var_name(service: Seq<char>) -> Seq<char> {
    Seq::new(service.len(), |i: int| spec_env_char(service[i])) + "_API_KEY"@
}

fn env_char(c: char) -> (r: char)
    ensures
        r == spec_env_char(c),
{
    if c == '-' {
        '_'
    } else if 'a' <= c && c <= 'z' {
        ((c as u8) - 32) as char
    } else {
        c
    }
}

/// Renders the environment variable that names a service's API key.
pub fn env_var_name(service: &str) -> (r: String)
    ensures
        r@ == spec_env_var_name(service@),
{
    let n = service.unicode_len();
    let mut s = String::new();
    let mut i: usize = 0;
    while i < n
        invariant
            n == service@.len(),
            0 <= i <= n,
            s@ =~= Seq::new(i as nat, |j: int| spec_env_char(service@[j])),
        decreases n - i,
    {
        let c = env_char(service.get_char(i));
        push_char(&mut s, c);
        i = i + 1;
    }
    let mut out = s;
    out.append("_API_KEY");
    proof {
        assert(out@ =~= spec_env_var_name(service@));
    }
    out
}

/// The character for one hexadecimal digit.
pub open spec fn spec_hex_digit(d: u64) -> char {
    if d == 0 { '0' }
    else if d == 1 { '1' }
    else if d == 2 { '2' }
    else if d == 3 { '3' }
    else if d == 4 { '4' }
    else if d == 5 { '5' }
    else if d == 6 { '6' }
    else if d == 7 { '7' }
    else if d == 8 { '8' }
    else if d == 9 { '9' }
    else if d == 10 { 'a' }
    else if d == 11 { 'b' }
    else if d == 12 { 'c' }
    else if d == 13 { 'd' }
    else if d == 14 { 'e' }
    else { 'f' }
}

/// The i-th nibble of a 64-bit value, counting from the most significant.
pub open spec fn spec_nibble(n: u64, i: int) -> u64 {
    (n >> (((15 - i) * 4) as u64)) & 0xf
}

/// The sixteen-digit lower-case hexadecimal rendering of a 64-bit value.
pub open spec fn spec_hex16(n: u64) -> Seq<char> {
    Seq::new(16, |i: int| spec_hex_digit(spec_nibble(n, i)))
}

fn hex_digit_char(d: u64) -> (c: char)
    requires
        d < 16,
    ensures
        c == spec_hex_digit(d),
{
    if d == 0 { '0' }
    else if d == 1 { '1' }
    else if d == 2 { '2' }
    else if d == 3 { '3' }
    else if d == 4 { '4' }
    else if d == 5 { '5' }
    else if d == 6 { '6' }
    else if d == 7 { '7' }
    else if d == 8 { '8' }
    else if d == 9 { '9' }
    else if d == 10 { 'a' }
    else if d == 11 { 'b' }
    else if d == 12 { 'c' }
    else if d == 13 { 'd' }
    else if d == 14 { 'e' }
    else { 'f' }
}

/// Formats a 64-bit value as sixteen lower-case hexadecimal digits.
pub fn hex16(n: u64) -> (r: String)
    ensures
        r@ == spec_hex16(n),
{
    let mut s = String::new();
    let mut i: usize = 0;
    while i < 16
        invariant
            0 <= i <= 16,
            s@ =~= Seq::new(i as nat, |j: int| spec_hex_digit(spec_nibble(n, j))),
        decreases 16 - i,
    {
        let shift: u64 = (15 - i as u64) * 4;
        let d: u64 = (n >> shift) & 0xf;
        proof {
            assert((n >> shift) & 0xf < 16) by (bit_vector);
        }
        let c = hex_digit_char(d);
        push_char(&mut s, c);
        i = i + 1;
    }
    proof {
        assert(s@ =~= spec_hex16(n));
    }
    s
}

proof fn lemma_hex_digit_injective(x: u64, y: u64)
    requires
        x < 16,
        y < 16,
        spec_hex_digit(x) == spec_hex_digit(y),
    ensures
        x == y,
{
}

/// Distinct 64-bit values have distinct sixteen-digit renderings.
pub proof fn lemma_hex16_injective(a: u64, b: u64)
    requires
        spec_hex16(a) == spec_hex16(b),
    ensures
        a == b,
{
    assert forall|i: int| 0 <= i < 16 implies spec_nibble(a, i) == spec_nibble(b, i) by {
        assert(spec_hex16(a)[i] == spec_hex_digit(spec_nibble(a, i)));
        assert(spec_hex16(b)[i] == spec_hex_digit(spec_nibble(b, i)));
        assert(spec_nibble(a, i) < 16 && spec_nibble(b, i) < 16) by {
            let sh = ((15 - i) * 4) as u64;
            assert((a >> sh) & 0xf < 16) by (bit_vector);
            assert((b >> sh) & 0xf < 16) by (bit_vector);
        }
        lemma_hex_digit_injective(spec_nibble(a, i), spec_nibble(b, i));
    }
    assert(spec_nibble(a, 0) == spec_nibble(b, 0));
    assert(spec_nibble(a, 1) == spec_nibble(b, 1));
    assert(spec_nibble(a, 2) == spec_nibble(b, 2));
    assert(spec_nibble(a, 3) == spec_nibble(b, 3));
    assert(spec_nibble(a, 4) == spec_nibble(b, 4));
    assert(spec_nibble(a, 5) == spec_nibble(b, 5));
    assert(spec_nibble(a, 6) == spec_nibble(b, 6));
    assert(spec_nibble(a, 7) == spec_nibble(b, 7));
    assert(spec_nibble(a, 8) == spec_nibble(b, 8));
    assert(spec_nibble(a, 9) == spec_nibble(b, 9));
    assert(spec_nibble(a, 10) == spec_nibble(b, 10));
    assert(spec_nibble(a, 11) == spec_nibble(b, 11));
    assert(spec_nibble(a, 12) == spec_nibble(b, 12));
    assert(spec_nibble(a, 13) == spec_nibble(b, 13));
    assert(spec_nibble(a, 14) == spec_nibble(b, 14));
    assert(spec_nibble(a, 15) == spec_nibble(b, 15));
    assert(a == b) by (bit_vector)
        requires
            (a >> 60u64) & 0xf == (b >> 60u64) & 0xf,
            (a >> 56u64) & 0xf == (b >> 56u64) & 0xf,
            (a >> 52u64) & 0xf == (b >> 52u64) & 0xf,
            (a >> 48u64) & 0xf == (b >> 48u64) & 0xf,
            (a >> 44u64) & 0xf == (b >> 44u64) & 0xf,
            (a >> 40u64) & 0xf == (b >> 40u64) & 0xf,
            (a >> 36u64) & 0xf == (b >> 36u64) & 0xf,
            (a >> 32u64) & 0xf == (b >> 32u64) & 0xf,
            (a >> 28u64) & 0xf == (b >> 28u64) & 0xf,
            (a >> 24u64) & 0xf == (b >> 24u64) & 0xf,
            (a >> 20u64) & 0xf == (b >> 20u64) & 0xf,
            (a >> 16u64) & 0xf == (b >> 16u64) & 0xf,
            (a >> 12u64) & 0xf == (b >> 12u64) & 0xf,
            (a >> 8u64) & 0xf == (b >> 8u64) & 0xf,
            (a >> 4u64) & 0xf == (b >> 4u64) & 0xf,
            (a >> 0u64) & 0xf == (b >> 0u64) & 0xf,
    ;
}

/// The character for one decimal digit.
pub open spec fn spec_dec_digit(d: u64) -> char {
    if d == 0 { '0' }
    else if d == 1 { '1' }
    else if d == 2 { '2' }
    else if d == 3 { '3' }
    else if d == 4 { '4' }
    else if d == 5 { '5' }
    else if d == 6 { '6' }
    else if d == 7 { '7' }
    else if d == 8 { '8' }
    else { '9' }
}

/// The decimal rendering of a 64-bit value, without leading zeros.
pub open spec fn spec_dec(n: u64) -> Seq<char>
    decreases n,
{
    if n < 10 {
        seq![spec_dec_digit(n)]
    } else {
        spec_dec(n / 10).push(spec_dec_digit(n % 10))
    }
}

fn dec_digit_char(d: u64) -> (c: char)
    requires
        d < 10,
    ensures
        c == spec_dec_digit(d),
{
    if d == 0 { '0' }
    else if d == 1 { '1' }
    else if d == 2 { '2' }
    else if d == 3 { '3' }
    else if d == 4 { '4' }
    else if d == 5 { '5' }
    else if d == 6 { '6' }
    else if d == 7 { '7' }
    else if d == 8 { '8' }
    else { '9' }
}

/// Formats a 64-bit value in decimal.
pub fn dec(n: u64) -> (r: String)
    ensures
        r@ == spec_dec(n),
    decreases n,
{
    if n < 10 {
        let mut s = String::new();
        let c = dec_digit_char(n);
        push_char(&mut s, c);
        proof {
            assert(s@ =~= seq![spec_dec_digit(n)]);
        }
        s
    } else {
        let mut s = dec(n / 10);
        let c = dec_digit_char(n % 10);
        push_char(&mut s, c);
        s
    }
}

} // verus!
