//! Text handling shared by the whole library: whitespace trimming, prefix and
//! character tests, pattern replacement, decimal and hexadecimal rendering and
//! decimal parsing, each stated over the character sequence of a string.
use vstd::prelude::*;
use vstd::string::*;

verus! {

// ---------------------------------------------------------------------------
// Specifications
// ---------------------------------------------------------------------------

/// Unicode `White_Space`, the set that `char::is_whitespace` and `str::trim` use.
pub open spec fn is_whitespace(c: char) -> bool {
    let u = c as u32;
    ||| u == 0x20
    ||| (0x09 <= u && u <= 0x0d)
    ||| u == 0x85
    ||| u == 0xa0
    ||| u == 0x1680
    ||| (0x2000 <= u && u <= 0x200a)
    ||| u == 0x2028
    ||| u == 0x2029
    ||| u == 0x202f
    ||| u == 0x205f
    ||| u == 0x3000
}

/// `s` without its leading whitespace.
pub open spec fn trim_start(s: Seq<char>) -> Seq<char>
    decreases s.len(),
{
    if s.len() > 0 && is_whitespace(s[0]) {
        trim_start(s.drop_first())
    } else {
        s
    }
}

/// `s` without its trailing whitespace.
pub open spec fn trim_end(s: Seq<char>) -> Seq<char>
    decreases s.len(),
{
    if s.len() > 0 && is_whitespace(s.last()) {
        trim_end(s.drop_last())
    } else {
        s
    }
}

/// `s` without leading and trailing whitespace (`str::trim`).
pub open spec fn trimmed(s: Seq<char>) -> Seq<char> {
    trim_end(trim_start(s))
}

/// `s` without every trailing occurrence of `c` (`str::trim_end_matches` with a char).
pub open spec fn trimmed_end_char(s: Seq<char>, c: char) -> Seq<char>
    decreases s.len(),
{
    if s.len() > 0 && s.last() == c {
        trimmed_end_char(s.drop_last(), c)
    } else {
        s
    }
}

/// `p` is a prefix of `s`.
pub open spec fn has_prefix(s: Seq<char>, p: Seq<char>) -> bool {
    p.len() <= s.len() && s.subrange(0, p.len() as int) == p
}

/// `s` with every occurrence of `pat`, found left to right without overlap,
/// replaced by `rep` (`str::replace` with a non-empty pattern).
pub open spec fn replaced(s: Seq<char>, pat: Seq<char>, rep: Seq<char>) -> Seq<char>
    decreases s.len(),
{
    if s.len() == 0 {
        Seq::empty()
    } else if 0 < pat.len() <= s.len() && s.subrange(0, pat.len() as int) == pat {
        rep + replaced(s.skip(pat.len() as int), pat, rep)
    } else {
        seq![s[0]] + replaced(s.drop_first(), pat, rep)
    }
}

/// The character that stands for the decimal digit `d`.
pub open spec fn digit_char(d: int) -> char {
    (d + 48) as char
}

/// An ASCII decimal digit.
pub open spec fn is_digit(c: char) -> bool {
    48 <= (c as u32) <= 57
}

/// The decimal representation of `n`, without sign or leading zeros.
pub open spec fn dec(n: nat) -> Seq<char>
    decreases n,
{
    if n < 10 {
        seq![digit_char(n as int)]
    } else {
        dec(n / 10) + seq![digit_char((n % 10) as int)]
    }
}

/// The value of a string of decimal digits.
pub open spec fn digits_value(d: Seq<char>) -> nat
    decreases d.len(),
{
    if d.len() == 0 {
        0
    } else {
        digits_value(d.drop_last()) * 10 + ((d.last() as u32) - 48) as nat
    }
}

/// Every character of `d` is a decimal digit.
pub open spec fn all_digits(d: Seq<char>) -> bool {
    forall|i: int| 0 <= i < d.len() ==> is_digit(#[trigger] d[i])
}

/// The digits that `str::parse` reads for an unsigned integer: a single leading
/// `+` is skipped when something follows it.
pub open spec fn unsigned_digits(s: Seq<char>) -> Seq<char> {
    if s.len() > 1 && s[0] == '+' {
        s.drop_first()
    } else {
        s
    }
}

/// What `str::parse` gives for an unsigned integer type whose largest value is
/// `max`: the value when the text is an optional `+` and one or more decimal
/// digits denoting at most `max`, and `None` otherwise.
pub open spec fn parsed_unsigned(s: Seq<char>, max: nat) -> Option<nat> {
    let d = unsigned_digits(s);
    if d.len() > 0 && all_digits(d) && digits_value(d) <= max {
        Some(digits_value(d))
    } else {
        None
    }
}

/// What `format!("{:02}", n)` gives: at least two characters, zero-padded after
/// the sign.
pub open spec fn pad2(n: int) -> Seq<char> {
    if n < 0 {
        seq!['-'] + dec((-n) as nat)
    } else if n < 10 {
        seq!['0'] + dec(n as nat)
    } else {
        dec(n as nat)
    }
}

/// The lower-case hexadecimal digit for `d < 16`.
pub open spec fn hex_digit(d: int) -> char {
    if d < 10 {
        digit_char(d)
    } else {
        (d - 10 + 97) as char
    }
}

/// Two lower-case hexadecimal digits per byte (`format!("{:02x}", b)` for each byte).
pub open spec fn hex_lower(b: Seq<u8>) -> Seq<char>
    decreases b.len(),
{
    if b.len() == 0 {
        Seq::empty()
    } else {
        hex_lower(b.drop_last()) + seq![
            hex_digit((b.last() / 16) as int),
            hex_digit((b.last() % 16) as int),
        ]
    }
}

/// A lower-case hexadecimal digit.
pub open spec fn is_lower_hex(c: char) -> bool {
    is_digit(c) || (97 <= (c as u32) <= 102)
}

/// `c` in upper case when it is an ASCII lower-case letter.
pub open spec fn ascii_upper_char(c: char) -> char {
    if 97 <= (c as u32) <= 122 {
        ((c as u32) - 32) as char
    } else {
        c
    }
}

/// Every ASCII lower-case letter of `s` in upper case.
pub open spec fn upper_ascii(s: Seq<char>) -> Seq<char> {
    Seq::new(s.len(), |i: int| ascii_upper_char(s[i]))
}

// ---------------------------------------------------------------------------
// Lemmas
// ---------------------------------------------------------------------------

/// The decimal representation of a number is a non-empty string of digits,
/// whose value is the number.
pub proof fn lemma_dec(n: nat)
    ensures
        dec(n).len() > 0,
        all_digits(dec(n)),
        digits_value(dec(n)) == n,
        dec(n)[0] != '+',
    decreases n,
{
    let last = digit_char((n % 10) as int);
    assert((last as u32) == (n % 10) + 48);
    if n < 10 {
        assert(dec(n) == seq![last]);
        assert(dec(n).drop_last() =~= Seq::<char>::empty());
        assert(digits_value(Seq::<char>::empty()) == 0);
        assert(digits_value(dec(n)) == n);
    } else {
        lemma_dec(n / 10);
        let d = dec(n / 10) + seq![last];
        assert(dec(n) == d);
        assert(d.drop_last() =~= dec(n / 10));
        assert(d.last() == last);
        assert(digits_value(d) == digits_value(dec(n / 10)) * 10 + n % 10);
        assert(d[0] == dec(n / 10)[0]);
        assert forall|i: int| 0 <= i < d.len() implies is_digit(#[trigger] d[i]) by {
            if i < dec(n / 10).len() {
                assert(d[i] == dec(n / 10)[i]);
            }
        }
    }
}

/// Two hexadecimal digits per byte.
pub proof fn lemma_hex_lower(b: Seq<u8>)
    ensures
        hex_lower(b).len() == 2 * b.len(),
        forall|i: int| 0 <= i < hex_lower(b).len() ==> is_lower_hex(#[trigger] hex_lower(b)[i]),
    decreases b.len(),
{
    if b.len() > 0 {
        lemma_hex_lower(b.drop_last());
        let p = hex_lower(b.drop_last());
        let hi = (b.last() / 16) as int;
        let lo = (b.last() % 16) as int;
        assert((hex_digit(hi) as u32) == if hi < 10 { hi + 48 } else { hi - 10 + 97 });
        assert((hex_digit(lo) as u32) == if lo < 10 { lo + 48 } else { lo - 10 + 97 });
        assert forall|i: int| 0 <= i < hex_lower(b).len() implies is_lower_hex(
            #[trigger] hex_lower(b)[i],
        ) by {
            if i < p.len() {
                assert(hex_lower(b)[i] == p[i]);
            }
        }
    }
}

/// Parsing the decimal representation of `n` gives `n` back.
pub proof fn lemma_parse_dec(n: nat, max: nat)
    requires
        n <= max,
    ensures
        parsed_unsigned(dec(n), max) == Some(n),
{
    lemma_dec(n);
}

proof fn lemma_trim_start_skip(s: Seq<char>, i: int)
    requires
        0 <= i < s.len(),
        is_whitespace(s[i]),
    ensures
        trim_start(s.skip(i)) == trim_start(s.skip(i + 1)),
{
    assert(s.skip(i).drop_first() =~= s.skip(i + 1));
}

proof fn lemma_trim_end_sub(s: Seq<char>, i: int, j: int)
    requires
        0 <= i < j <= s.len(),
        is_whitespace(s[j - 1]),
    ensures
        trim_end(s.subrange(i, j)) == trim_end(s.subrange(i, j - 1)),
{
    assert(s.subrange(i, j).drop_last() =~= s.subrange(i, j - 1));
}

proof fn lemma_trim_end_char_sub(s: Seq<char>, j: int, c: char)
    requires
        0 < j <= s.len(),
        s[j - 1] == c,
    ensures
        trimmed_end_char(s.subrange(0, j), c) == trimmed_end_char(s.subrange(0, j - 1), c),
{
    assert(s.subrange(0, j).drop_last() =~= s.subrange(0, j - 1));
}

// ---------------------------------------------------------------------------
// Executable helpers
// ---------------------------------------------------------------------------

/// Appends one character to a string.
///
/// Trusted: calls `String::push`, which appends `c` at the end of the string.
#[verifier::external_body]
pub(crate) fn push_char(s: &mut String, c: char)
    ensures
        final(s)@ == old(s)@.push(c),
{
    s.push(c);
}

/// Appends a string slice.
pub fn push_str(s: &mut String, t: &str)
    ensures
        final(s)@ == old(s)@ + t@,
{
    s.append(t);
}

/// An owned copy of a string slice.
pub fn to_owned_string(s: &str) -> (r: String)
    ensures
        r@ == s@,
{
    s.to_owned()
}

/// The character for the decimal digit `d`.
pub fn digit(d: u64) -> (c: char)
    requires
        d < 10,
    ensures
        c == digit_char(d as int),
{
    let b: u8 = (d as u8) + 48u8;
    b as char
}

/// `char::is_whitespace`.
pub fn is_whitespace_char(c: char) -> (b: bool)
    ensures
        b == is_whitespace(c),
{
    let u = c as u32;
    u == 0x20 || (0x09 <= u && u <= 0x0d) || u == 0x85 || u == 0xa0 || u == 0x1680 || (0x2000
        <= u && u <= 0x200a) || u == 0x2028 || u == 0x2029 || u == 0x202f || u == 0x205f || u
        == 0x3000
}

/// `str::trim`.
pub fn trim(s: &str) -> (r: &str)
    ensures
        r@ == trimmed(s@),
{
    let n = s.unicode_len();
    let mut i: usize = 0;
    assert(s@.skip(0) =~= s@);
    while i < n && is_whitespace_char(s.get_char(i))
        invariant
            i <= n,
            n == s@.len(),
            trim_start(s@) == trim_start(s@.skip(i as int)),
        decreases n - i,
    {
        proof {
            lemma_trim_start_skip(s@, i as int);
        }
        i += 1;
    }
    assert(trim_start(s@) == s@.subrange(i as int, n as int)) by {
        assert(s@.skip(i as int) =~= s@.subrange(i as int, n as int));
    }
    let mut j: usize = n;
    while j > i && is_whitespace_char(s.get_char(j - 1))
        invariant
            i <= j <= n,
            n == s@.len(),
            trimmed(s@) == trim_end(s@.subrange(i as int, j as int)),
        decreases j - i,
    {
        proof {
            lemma_trim_end_sub(s@, i as int, j as int);
        }
        j -= 1;
    }
    s.substring_char(i, j)
}

/// `str::trim_end_matches` with a single character.
pub fn trim_end_char(s: &str, c: char) -> (r: &str)
    ensures
        r@ == trimmed_end_char(s@, c),
{
    let n = s.unicode_len();
    let mut j: usize = n;
    assert(s@.subrange(0, n as int) =~= s@);
    while j > 0 && s.get_char(j - 1) == c
        invariant
            j <= n,
            n == s@.len(),
            trimmed_end_char(s@, c) == trimmed_end_char(s@.subrange(0, j as int), c),
        decreases j,
    {
        proof {
            lemma_trim_end_char_sub(s@, j as int, c);
        }
        j -= 1;
    }
    s.substring_char(0, j)
}

/// `str::contains` with a single character.
pub fn contains_char(s: &str, c: char) -> (b: bool)
    ensures
        b == s@.contains(c),
{
    let n = s.unicode_len();
    let mut i: usize = 0;
    while i < n
        invariant
            i <= n,
            n == s@.len(),
            forall|k: int| 0 <= k < i ==> s@[k] != c,
        decreases n - i,
    {
        if s.get_char(i) == c {
            return true;
        }
        i += 1;
    }
    false
}

/// Whether `pat` occurs in `s` at character position `i`.
fn matches_at(s: &str, pat: &str, i: usize) -> (b: bool)
    requires
        i + pat@.len() <= s@.len(),
    ensures
        b == (s@.subrange(i as int, i + pat@.len()) == pat@),
{
    let m = pat.unicode_len();
    let n = s.unicode_len();
    let mut k: usize = 0;
    while k < m
        invariant
            k <= m,
            n == s@.len(),
            m == pat@.len(),
            i + m <= s@.len(),
            forall|t: int| 0 <= t < k ==> s@[i + t] == pat@[t],
        decreases m - k,
    {
        if s.get_char(i + k) != pat.get_char(k) {
            assert(s@.subrange(i as int, i + m)[k as int] != pat@[k as int]);
            return false;
        }
        k += 1;
    }
    assert(s@.subrange(i as int, i + m) =~= pat@);
    true
}

/// `str::starts_with` with a string pattern.
pub fn starts_with(s: &str, p: &str) -> (b: bool)
    ensures
        b == has_prefix(s@, p@),
{
    if p.unicode_len() > s.unicode_len() {
        false
    } else {
        matches_at(s, p, 0)
    }
}

/// `str::replace` with a non-empty pattern.
pub fn replace_all(s: &str, pat: &str, rep: &str) -> (r: String)
    requires
        pat@.len() > 0,
    ensures
        r@ == replaced(s@, pat@, rep@),
{
    let n = s.unicode_len();
    let m = pat.unicode_len();
    let mut out = String::new();
    let mut i: usize = 0;
    assert(s@.skip(0) =~= s@);
    while i < n
        invariant
            i <= n,
            n == s@.len(),
            m == pat@.len(),
            m > 0,
            replaced(s@, pat@, rep@) == out@ + replaced(s@.skip(i as int), pat@, rep@),
        decreases n - i,
    {
        let ghost rest = s@.skip(i as int);
        if m <= n - i && matches_at(s, pat, i) {
            proof {
                assert(rest.subrange(0, m as int) =~= s@.subrange(i as int, i + m));
                assert(rest.skip(m as int) =~= s@.skip(i + m));
            }
            push_str(&mut out, rep);
            i += m;
            proof {
                assert(out@ + replaced(s@.skip(i as int), pat@, rep@) =~= (out@.subrange(
                    0,
                    out@.len() - rep@.len(),
                ) + (rep@ + replaced(s@.skip(i as int), pat@, rep@))));
            }
        } else {
            let c = s.get_char(i);
            proof {
                if m <= n - i {
                    assert(rest.subrange(0, m as int) =~= s@.subrange(i as int, i + m));
                }
                assert(rest.drop_first() =~= s@.skip(i + 1));
            }
            push_char(&mut out, c);
            i += 1;
            proof {
                assert(out@ + replaced(s@.skip(i as int), pat@, rep@) =~= out@.drop_last() + (
                seq![c] + replaced(s@.skip(i as int), pat@, rep@)));
            }
        }
    }
    proof {
        assert(s@.skip(n as int) =~= Seq::<char>::empty());
        assert(out@ + Seq::<char>::empty() =~= out@);
    }
    out
}

/// Appends the decimal representation of `n`.
pub fn push_dec(s: &mut String, n: u64)
    ensures
        final(s)@ == old(s)@ + dec(n as nat),
    decreases n,
{
    if n >= 10 {
        push_dec(s, n / 10);
    }
    let d = digit(n % 10);
    push_char(s, d);
    proof {
        if n >= 10 {
            assert(final(s)@ =~= old(s)@ + dec(n as nat));
        } else {
            assert(final(s)@ =~= old(s)@ + dec(n as nat));
        }
    }
}

/// The decimal representation of `n` (`n.to_string()` for an unsigned integer).
pub fn dec_string(n: u64) -> (r: String)
    ensures
        r@ == dec(n as nat),
{
    let mut s = String::new();
    push_dec(&mut s, n);
    assert(s@ =~= dec(n as nat));
    s
}

/// Appends `format!("{:02}", n)`.
pub fn push_pad2(s: &mut String, n: i64)
    ensures
        final(s)@ == old(s)@ + pad2(n as int),
{
    if n < 0 {
        push_char(s, '-');
        let a: u64 = if n == i64::MIN {
            9223372036854775808u64
        } else {
            (-n) as u64
        };
        push_dec(s, a);
        assert(final(s)@ =~= old(s)@ + pad2(n as int));
    } else if n < 10 {
        push_char(s, '0');
        push_dec(s, n as u64);
        assert(final(s)@ =~= old(s)@ + pad2(n as int));
    } else {
        push_dec(s, n as u64);
    }
}

/// Appends `format!("{:02x}", b)`.
pub fn push_hex_byte(s: &mut String, b: u8)
    ensures
        final(s)@ == old(s)@ + seq![hex_digit((b / 16) as int), hex_digit((b % 16) as int)],
{
    let hi = b / 16;
    let lo = b % 16;
    let c1 = if hi < 10 {
        (hi + 48u8) as char
    } else {
        (hi - 10 + 97u8) as char
    };
    let c2 = if lo < 10 {
        (lo + 48u8) as char
    } else {
        (lo - 10 + 97u8) as char
    };
    push_char(s, c1);
    push_char(s, c2);
    assert(final(s)@ =~= old(s)@ + seq![hex_digit((b / 16) as int), hex_digit((b % 16) as int)]);
}

/// Two lower-case hexadecimal digits for each byte.
pub fn hex_string(bytes: &[u8]) -> (r: String)
    ensures
        r@ == hex_lower(bytes@),
{
    let mut s = String::new();
    let n = bytes.len();
    let mut i: usize = 0;
    while i < n
        invariant
            i <= n,
            n == bytes@.len(),
            s@ == hex_lower(bytes@.subrange(0, i as int)),
        decreases n - i,
    {
        proof {
            let b = bytes@.subrange(0, i + 1);
            assert(b.drop_last() =~= bytes@.subrange(0, i as int));
            assert(b.last() == bytes@[i as int]);
        }
        push_hex_byte(&mut s, bytes[i]);
        i += 1;
    }
    assert(bytes@.subrange(0, n as int) =~= bytes@);
    s
}

/// `s` with ASCII lower-case letters in upper case.
pub fn ascii_upper(s: &str) -> (r: String)
    ensures
        r@ == upper_ascii(s@),
{
    let n = s.unicode_len();
    let mut out = String::new();
    let mut i: usize = 0;
    while i < n
        invariant
            i <= n,
            n == s@.len(),
            out@ =~= upper_ascii(s@.subrange(0, i as int)),
        decreases n - i,
    {
        let c = s.get_char(i);
        let u = c as u32;
        let up = if 97 <= u && u <= 122 {
            ((u - 32) as u8) as char
        } else {
            c
        };
        push_char(&mut out, up);
        i += 1;
    }
    assert(s@.subrange(0, n as int) =~= s@);
    out
}

/// `str::parse` for an unsigned integer type whose largest value is `max`.
pub fn parse_unsigned(s: &str, max: u64) -> (r: Option<u64>)
    requires
        max <= u32::MAX,
    ensures
        match parsed_unsigned(s@, max as nat) {
            Some(v) => r == Some(v as u64),
            None => r is None,
        },
{
    let n = s.unicode_len();
    let start: usize = if n > 1 && s.get_char(0) == '+' {
        1
    } else {
        0
    };
    let ghost d = unsigned_digits(s@);
    assert(d =~= s@.subrange(start as int, n as int));
    if start == n {
        return None;
    }
    let mut acc: u64 = 0;
    let mut over = false;
    let mut i: usize = start;
    while i < n
        invariant
            start <= i <= n,
            n == s@.len(),
            max <= u32::MAX,
            d =~= s@.subrange(start as int, n as int),
            d == unsigned_digits(s@),
            all_digits(s@.subrange(start as int, i as int)),
            !over ==> acc == digits_value(s@.subrange(start as int, i as int)) && acc <= max,
            over ==> digits_value(s@.subrange(start as int, i as int)) > max,
        decreases n - i,
    {
        let c = s.get_char(i);
        let u = c as u32;
        let ghost p = s@.subrange(start as int, i + 1);
        proof {
            assert(p.drop_last() =~= s@.subrange(start as int, i as int));
            assert(p.last() == c);
        }
        if u < 48 || u > 57 {
            proof {
                assert(d[i - start] == c);
                assert(!is_digit(d[i - start]));
                assert(!all_digits(d));
            }
            return None;
        }
        if !over {
            let v = acc * 10 + (u as u64 - 48);
            if v > max {
                over = true;
            } else {
                acc = v;
            }
        }
        i += 1;
        proof {
            assert forall|k: int| 0 <= k < p.len() implies is_digit(#[trigger] p[k]) by {
                if k < p.len() - 1 {
                    assert(p[k] == s@.subrange(start as int, i - 1)[k]);
                }
            }
        }
    }
    if over {
        None
    } else {
        Some(acc)
    }
}

/// `a == b` for string slices.
pub fn str_eq(a: &str, b: &str) -> (r: bool)
    ensures
        r == (a@ == b@),
{
    if a.unicode_len() != b.unicode_len() {
        return false;
    }
    let r = matches_at(a, b, 0);
    assert(a@.subrange(0, b@.len() as int) =~= a@);
    r
}

} // verus!
