//! Text utilities over character sequences: decimal formatting and parsing,
//! whitespace trimming, substring search and lexicographic order.

use vstd::prelude::*;

verus! {

// ---------------------------------------------------------------------------
// Decimal numbers
// ---------------------------------------------------------------------------

/// The decimal digit character for `d` (0..=9).
pub open spec fn digit_char(d: nat) -> char {
    if d == 0 { '0' } else if d == 1 { '1' } else if d == 2 { '2' } else if d == 3 { '3' }
    else if d == 4 { '4' } else if d == 5 { '5' } else if d == 6 { '6' } else if d == 7 { '7' }
    else if d == 8 { '8' } else { '9' }
}

/// Whether `c` is one of the ASCII digits `0`..`9`.
pub open spec fn is_digit(c: char) -> bool {
    '0' <= c && c <= '9'
}

/// The value of an ASCII digit.
pub open spec fn digit_value(c: char) -> nat {
    (c as int - '0' as int) as nat
}

/// Decimal representation of a natural number, without leading zeros.
pub open spec fn decimal(n: nat) -> Seq<char>
    decreases n,
{
    if n < 10 {
        seq![digit_char(n)]
    } else {
        decimal(n / 10).push(digit_char(n % 10))
    }
}

/// Decimal representation of an integer, with a leading `-` when negative.
pub open spec fn signed_decimal(i: int) -> Seq<char> {
    if i < 0 { seq!['-'] + decimal((-i) as nat) } else { decimal(i as nat) }
}

/// Whether every character of `s` is a digit.
pub open spec fn all_digits(s: Seq<char>) -> bool {
    forall|i: int| 0 <= i < s.len() ==> is_digit(#[trigger] s[i])
}

/// The value of a digit string, most significant digit first.
pub open spec fn digits_value(s: Seq<char>) -> nat
    decreases s.len(),
{
    if s.len() == 0 {
        0
    } else {
        digits_value(s.drop_last()) * 10 + digit_value(s.last())
    }
}

/// What `str::parse` gives for an unsigned integer type whose largest value is `max`:
/// an optional leading `+`, then at least one digit and nothing else, and a value
/// that fits.
pub open spec fn parse_unsigned(s: Seq<char>, max: nat) -> Option<nat> {
    let body = if s.len() > 0 && s[0] == '+' { s.drop_first() } else { s };
    if body.len() == 0 || !all_digits(body) || digits_value(body) > max {
        None
    } else {
        Some(digits_value(body))
    }
}

proof fn lemma_digit_char(d: nat)
    requires
        d < 10,
    ensures
        is_digit(digit_char(d)),
        digit_value(digit_char(d)) == d,
        digit_char(d) != '+',
{
}

/// The decimal form of a number is a digit string of that value, not starting with `+`.
pub proof fn lemma_decimal_digits(n: nat)
    ensures
        decimal(n).len() > 0,
        all_digits(decimal(n)),
        digits_value(decimal(n)) == n,
        decimal(n)[0] != '+',
        decimal(n)[0] != '-',
    decreases n,
{
    if n < 10 {
        lemma_digit_char(n);
        assert(decimal(n).drop_last() =~= Seq::<char>::empty());
        assert(digits_value(Seq::<char>::empty()) == 0);
        assert(decimal(n).last() == digit_char(n));
    } else {
        lemma_decimal_digits(n / 10);
        lemma_digit_char(n % 10);
        let s = decimal(n);
        assert(s.drop_last() =~= decimal(n / 10));
        assert(s.last() == digit_char(n % 10));
        assert(n == (n / 10) * 10 + n % 10) by (nonlinear_arith);
        assert forall|i: int| 0 <= i < s.len() implies is_digit(#[trigger] s[i]) by {
            if i < s.len() - 1 {
                assert(s[i] == decimal(n / 10)[i]);
            }
        }
    }
}

/// Parsing the decimal form of a number that fits gives the number back.
pub proof fn lemma_parse_decimal(n: nat, max: nat)
    requires
        n <= max,
    ensures
        parse_unsigned(decimal(n), max) == Some(n),
{
    lemma_decimal_digits(n);
}

/// The value of a digit string is at least the value of any of its prefixes.
proof fn lemma_digits_value_prefix(s: Seq<char>, k: int)
    requires
        0 <= k <= s.len(),
        all_digits(s),
    ensures
        digits_value(s.take(k)) <= digits_value(s),
    decreases s.len(),
{
    if k < s.len() {
        assert(s.take(k) =~= s.drop_last().take(k));
        assert forall|i: int| 0 <= i < s.drop_last().len() implies is_digit(#[trigger] s.drop_last()[i]) by {
            assert(s.drop_last()[i] == s[i]);
        }
        lemma_digits_value_prefix(s.drop_last(), k);
    } else {
        assert(s.take(k) =~= s);
    }
}

/// `String::push`: the string afterwards is the string before with `c` added at
/// its end.
#[verifier::external_body]
pub(crate) fn push_char(s: &mut String, c: char)
    ensures
        final(s)@ == old(s)@.push(c),
{
    s.push(c);
}

fn digit_to_char(d: u64) -> (c: char)
    requires
        d < 10,
    ensures
        c == digit_char(d as nat),
{
    if d == 0 { '0' } else if d == 1 { '1' } else if d == 2 { '2' } else if d == 3 { '3' }
    else if d == 4 { '4' } else if d == 5 { '5' } else if d == 6 { '6' } else if d == 7 { '7' }
    else if d == 8 { '8' } else { '9' }
}

/// Appends the decimal form of `n` to `s`.
pub fn append_u64(s: &mut String, n: u64)
    ensures
        final(s)@ == old(s)@ + decimal(n as nat),
    decreases n,
{
    if n < 10 {
        push_char(s, digit_to_char(n));
        assert(decimal(n as nat) =~= seq![digit_char(n as nat)]);
    } else {
        append_u64(s, n / 10);
        push_char(s, digit_to_char(n % 10));
        assert(decimal(n as nat) == decimal((n / 10) as nat).push(digit_char((n % 10) as nat)));
    }
}

/// Formats an unsigned integer in decimal, as `to_string` does.
pub fn format_u64(n: u64) -> (s: String)
    ensures
        s@ == decimal(n as nat),
{
    let mut s = String::new();
    append_u64(&mut s, n);
    assert(s@ =~= decimal(n as nat));
    s
}

/// Appends the decimal form of a signed integer to `s`.
pub fn append_i64(s: &mut String, i: i64)
    ensures
        final(s)@ == old(s)@ + signed_decimal(i as int),
{
    if i < 0 {
        push_char(s, '-');
        let m: u64 = if i == i64::MIN { 9223372036854775808u64 } else { (-i) as u64 };
        append_u64(s, m);
        assert(old(s)@ + signed_decimal(i as int) =~= old(s)@.push('-') + decimal(m as nat));
    } else {
        append_u64(s, i as u64);
    }
}

/// Parses an unsigned integer no larger than `max`, as `str::parse` does for an
/// unsigned type whose largest value is `max`.
pub fn parse_unsigned_str(s: &str, max: u64) -> (r: Option<u64>)
    ensures
        match parse_unsigned(s@, max as nat) {
            Some(v) => r == Some(v as u64),
            None => r is None,
        },
{
    let cs = chars_of(s);
    let start: usize = if cs.len() > 0 && cs[0] == '+' { 1 } else { 0 };
    let ghost body = if cs@.len() > 0 && cs@[0] == '+' { cs@.drop_first() } else { cs@ };
    assert(body =~= cs@.skip(start as int));
    if start == cs.len() {
        return None;
    }
    let mut acc: u64 = 0;
    let mut i: usize = start;
    while i < cs.len()
        invariant
            start <= i <= cs.len(),
            cs@ == s@,
            body == (if cs@.len() > 0 && cs@[0] == '+' { cs@.drop_first() } else { cs@ }),
            body =~= cs@.skip(start as int),
            acc <= max,
            acc == digits_value(body.take(i - start)),
            forall|j: int| 0 <= j < i - start ==> is_digit(#[trigger] body[j]),
        decreases cs.len() - i,
    {
        let c = cs[i];
        assert(body[i - start] == c);
        if !('0' <= c && c <= '9') {
            assert(!is_digit(body[i - start]));
            assert(!all_digits(body));
            assert(parse_unsigned(s@, max as nat) is None);
            return None;
        }
        let d: u64 = (c as u32 - '0' as u32) as u64;
        assert(body.take(i + 1 - start).drop_last() =~= body.take(i - start));
        assert(body.take(i + 1 - start).last() == c);
        assert(digits_value(body.take(i + 1 - start)) == acc * 10 + d);
        if d > max || acc > (max - d) / 10 {
            proof {
                assert(acc * 10 + d > max) by (nonlinear_arith)
                    requires d > max || acc > (max - d) / 10, d <= max ==> (max - d) / 10 * 10 <= max - d,
                {
                    if d <= max {
                        assert((max - d) / 10 * 10 + 10 <= acc * 10);
                    }
                }
                if all_digits(body) {
                    lemma_digits_value_prefix(body, i + 1 - start);
                    assert(digits_value(body) > max);
                }
                assert(parse_unsigned(s@, max as nat) is None);
            }
            return None;
        }
        acc = acc * 10 + d;
        i = i + 1;
    }
    assert(body.take(cs.len() - start) =~= body);
    Some(acc)
}

// ---------------------------------------------------------------------------
// Characters of a string
// ---------------------------------------------------------------------------

/// The characters of `s`, in order.
pub fn chars_of(s: &str) -> (v: Vec<char>)
    ensures
        v@ == s@,
{
    let mut v: Vec<char> = Vec::new();
    for c in it: s.chars()
        invariant
            v@ == it.seq().take(it.index() as int),
    {
        v.push(c);
    }
    v
}


/// A string holding exactly the given characters.
pub fn string_from_chars(cs: &[char]) -> (r: String)
    ensures
        r@ == cs@,
{
    let mut r = String::new();
    let mut i: usize = 0;
    while i < cs.len()
        invariant
            i <= cs@.len(),
            r@ == cs@.take(i as int),
        decreases cs@.len() - i,
    {
        push_char(&mut r, cs[i]);
        assert(cs@.take(i + 1) =~= cs@.take(i as int).push(cs@[i as int]));
        i = i + 1;
    }
    assert(cs@.take(cs@.len() as int) =~= cs@);
    r
}

/// An owned copy of a string slice.
pub fn string_of(s: &str) -> (r: String)
    ensures
        r@ == s@,
{
    String::from_str(s)
}

/// Appends a string slice.
pub fn append_str(s: &mut String, t: &str)
    ensures
        final(s)@ == old(s)@ + t@,
{
    s.append(t);
}

/// Copies a string.
pub fn copy_string(s: &String) -> (r: String)
    ensures
        r == *s,
        r@ == s@,
{
    s.clone()
}

// ---------------------------------------------------------------------------
// Whitespace
// ---------------------------------------------------------------------------

/// The Unicode `White_Space` property, which `char::is_whitespace` and `str::trim` use.
pub open spec fn is_white_space(c: char) -> bool {
    let v = c as u32;
    ||| 0x09 <= v <= 0x0d
    ||| v == 0x20
    ||| v == 0x85
    ||| v == 0xa0
    ||| v == 0x1680
    ||| 0x2000 <= v <= 0x200a
    ||| v == 0x2028
    ||| v == 0x2029
    ||| v == 0x202f
    ||| v == 0x205f
    ||| v == 0x3000
}

/// Whether a character has the Unicode `White_Space` property.
pub fn char_is_whitespace(c: char) -> (r: bool)
    ensures
        r == is_white_space(c),
{
    let v = c as u32;
    (0x09 <= v && v <= 0x0d) || v == 0x20 || v == 0x85 || v == 0xa0 || v == 0x1680
        || (0x2000 <= v && v <= 0x200a) || v == 0x2028 || v == 0x2029 || v == 0x202f
        || v == 0x205f || v == 0x3000
}

/// `s` without its leading whitespace.
pub open spec fn trim_start(s: Seq<char>) -> Seq<char>
    decreases s.len(),
{
    if s.len() > 0 && is_white_space(s[0]) { trim_start(s.drop_first()) } else { s }
}

/// `s` without its trailing whitespace.
pub open spec fn trim_end(s: Seq<char>) -> Seq<char>
    decreases s.len(),
{
    if s.len() > 0 && is_white_space(s.last()) { trim_end(s.drop_last()) } else { s }
}

/// `s` without leading and trailing whitespace, as `str::trim` gives it.
pub open spec fn trim(s: Seq<char>) -> Seq<char> {
    trim_end(trim_start(s))
}

/// Whether every character of `s` is whitespace.
pub open spec fn all_white_space(s: Seq<char>) -> bool {
    forall|i: int| 0 <= i < s.len() ==> is_white_space(#[trigger] s[i])
}

proof fn lemma_trim_start_skip(s: Seq<char>, k: int)
    requires
        0 <= k <= s.len(),
        forall|i: int| 0 <= i < k ==> is_white_space(#[trigger] s[i]),
    ensures
        trim_start(s) == trim_start(s.skip(k)),
    decreases k,
{
    if k > 0 {
        assert(s.skip(1) =~= s.drop_first());
        lemma_trim_start_skip(s.drop_first(), k - 1);
        assert(s.drop_first().skip(k - 1) =~= s.skip(k));
    } else {
        assert(s.skip(0) =~= s);
    }
}

proof fn lemma_trim_end_take(s: Seq<char>, k: int)
    requires
        0 <= k <= s.len(),
        forall|i: int| k <= i < s.len() ==> is_white_space(#[trigger] s[i]),
    ensures
        trim_end(s) == trim_end(s.take(k)),
    decreases s.len() - k,
{
    if k < s.len() {
        assert(s.take(s.len() - 1) =~= s.drop_last());
        lemma_trim_end_take(s.drop_last(), k);
        assert(s.drop_last().take(k) =~= s.take(k));
    } else {
        assert(s.take(k) =~= s);
    }
}

/// Trimming a string that starts and ends with non-whitespace leaves it as it is.
pub proof fn lemma_trim_fixed(s: Seq<char>)
    requires
        s.len() > 0,
        !is_white_space(s[0]),
        !is_white_space(s.last()),
    ensures
        trim(s) == s,
{
}

/// Trimming gives the empty string exactly when all characters are whitespace.
pub proof fn lemma_trim_empty(s: Seq<char>)
    ensures
        (trim(s).len() == 0) == all_white_space(s),
    decreases s.len(),
{
    if s.len() > 0 && is_white_space(s[0]) {
        lemma_trim_empty(s.drop_first());
        assert(trim(s) == trim(s.drop_first()));
        if all_white_space(s.drop_first()) {
            assert forall|i: int| 0 <= i < s.len() implies is_white_space(#[trigger] s[i]) by {
                if i > 0 {
                    assert(s[i] == s.drop_first()[i - 1]);
                }
            }
        }
        if all_white_space(s) {
            assert forall|i: int| 0 <= i < s.drop_first().len() implies is_white_space(
                #[trigger] s.drop_first()[i],
            ) by {
                assert(s.drop_first()[i] == s[i + 1]);
            }
        }
    } else if s.len() > 0 {
        // s[0] is not whitespace: trim_end keeps it
        lemma_trim_end_keeps_first(s);
    }
}

proof fn lemma_trim_end_keeps_first(s: Seq<char>)
    requires
        s.len() > 0,
        !is_white_space(s[0]),
    ensures
        trim_end(s).len() > 0,
    decreases s.len(),
{
    if s.len() > 1 && is_white_space(s.last()) {
        lemma_trim_end_keeps_first(s.drop_last());
    }
}

/// The trimmed form of a string.
pub fn trim_str(s: &str) -> (r: String)
    ensures
        r@ == trim(s@),
{
    let cs = chars_of(s);
    let n = cs.len();
    let mut lo: usize = 0;
    while lo < n && char_is_whitespace(cs[lo])
        invariant
            lo <= n,
            n == cs@.len(),
            forall|i: int| 0 <= i < lo ==> is_white_space(#[trigger] cs@[i]),
        decreases n - lo,
    {
        lo = lo + 1;
    }
    proof {
        lemma_trim_start_skip(cs@, lo as int);
    }
    let mut hi: usize = n;
    while hi > lo && char_is_whitespace(cs[hi - 1])
        invariant
            lo <= hi <= n,
            n == cs@.len(),
            forall|i: int| hi <= i < n ==> is_white_space(#[trigger] cs@[i]),
        decreases hi,
    {
        hi = hi - 1;
    }
    let ghost x = cs@.skip(lo as int);
    proof {
        lemma_trim_end_take(x, hi - lo);
        if lo < n {
            // cs[lo] is not whitespace: trim_start stops here
            assert(trim_start(x) == x);
        } else {
            assert(x.len() == 0);
        }
        if hi > lo {
            assert(x.take(hi - lo) =~= cs@.subrange(lo as int, hi as int));
            lemma_trim_fixed(x.take(hi - lo));
        } else {
            assert(x.take(hi - lo).len() == 0);
        }
    }
    let mut out: Vec<char> = Vec::new();
    let mut i: usize = lo;
    while i < hi
        invariant
            lo <= i <= hi <= n,
            n == cs@.len(),
            out@ == cs@.subrange(lo as int, i as int),
        decreases hi - i,
    {
        out.push(cs[i]);
        assert(cs@.subrange(lo as int, i + 1) =~= cs@.subrange(lo as int, i as int).push(cs@[i as int]));
        i = i + 1;
    }
    proof {
        assert(x.take(hi - lo) =~= cs@.subrange(lo as int, hi as int));
    }
    string_from_chars(out.as_slice())
}

/// Whether the trimmed form of `s` is empty (`s.trim().is_empty()`).
pub fn is_blank(s: &str) -> (r: bool)
    ensures
        r == (trim(s@).len() == 0),
        r == all_white_space(s@),
{
    proof {
        lemma_trim_empty(s@);
    }
    let cs = chars_of(s);
    let mut i: usize = 0;
    while i < cs.len()
        invariant
            i <= cs@.len(),
            cs@ == s@,
            forall|j: int| 0 <= j < i ==> is_white_space(#[trigger] cs@[j]),
        decreases cs@.len() - i,
    {
        if !char_is_whitespace(cs[i]) {
            assert(!is_white_space(s@[i as int]));
            assert(!all_white_space(s@));
            proof {
                lemma_trim_empty(s@);
            }
            return false;
        }
        i = i + 1;
    }
    true
}

// ---------------------------------------------------------------------------
// Lower case and substrings
// ---------------------------------------------------------------------------

/// What `str::to_lowercase` returns for a string: its Unicode lower-case form.
pub uninterp spec fn lowercase(s: Seq<char>) -> Seq<char>;

/// `str::to_lowercase`: the result is the lower-case form that `lowercase` names
/// for the argument.
#[verifier::external_body]
pub(crate) fn to_lowercase(s: &str) -> (r: String)
    ensures
        r@ == lowercase(s@),
{
    s.to_lowercase()
}

/// Whether `needle` occurs in `hay` as a contiguous part (`str::contains`).
pub open spec fn seq_contains(hay: Seq<char>, needle: Seq<char>) -> bool {
    exists|i: int|
        0 <= i && i + needle.len() <= hay.len() && #[trigger] hay.subrange(i, i + needle.len())
            == needle
}

/// Whether `needle` occurs in `hay` as a contiguous part.
pub fn chars_contain(hay: &[char], needle: &[char]) -> (r: bool)
    ensures
        r == seq_contains(hay@, needle@),
{
    let h = hay.len();
    let n = needle.len();
    if n > h {
        return false;
    }
    let mut i: usize = 0;
    while i <= h - n
        invariant
            n <= h,
            h == hay@.len(),
            n == needle@.len(),
            i <= h - n + 1,
            forall|k: int| 0 <= k < i ==> #[trigger] hay@.subrange(k, k + n) != needle@,
        decreases h - n + 1 - i,
    {
        let mut j: usize = 0;
        let mut same = true;
        while j < n
            invariant
                n <= h,
                i <= h - n,
                h == hay@.len(),
                n == needle@.len(),
                j <= n,
                same == (forall|m: int| 0 <= m < j ==> hay@[i + m] == needle@[m]),
            decreases n - j,
        {
            if hay[i + j] != needle[j] {
                same = false;
            }
            j = j + 1;
        }
        if same {
            assert(hay@.subrange(i as int, i + n) =~= needle@);
            return true;
        } else {
            let ghost m = choose|m: int| 0 <= m < n && hay@[i + m] != needle@[m];
            assert(hay@.subrange(i as int, i + n)[m] != needle@[m]);
        }
        i = i + 1;
    }
    false
}

/// Whether `needle` occurs in `hay` (`str::contains`).
pub fn str_contains(hay: &str, needle: &str) -> (r: bool)
    ensures
        r == seq_contains(hay@, needle@),
{
    let h = chars_of(hay);
    let n = chars_of(needle);
    chars_contain(h.as_slice(), n.as_slice())
}

/// Whether two strings hold the same characters.
pub fn str_eq(a: &str, b: &str) -> (r: bool)
    ensures
        r == (a@ == b@),
{
    let x = chars_of(a);
    let y = chars_of(b);
    if x.len() != y.len() {
        return false;
    }
    let mut i: usize = 0;
    while i < x.len()
        invariant
            x@ == a@,
            y@ == b@,
            x@.len() == y@.len(),
            i <= x@.len(),
            forall|k: int| 0 <= k < i ==> x@[k] == y@[k],
        decreases x@.len() - i,
    {
        if x[i] != y[i] {
            return false;
        }
        i = i + 1;
    }
    assert(x@ =~= y@);
    true
}

// ---------------------------------------------------------------------------
// Lexicographic order
// ---------------------------------------------------------------------------

/// Lexicographic order on character sequences by code point, which is the order
/// of `String`'s `Ord` (UTF-8 preserves code point order).
pub open spec fn lex_lt(a: Seq<char>, b: Seq<char>) -> bool
    decreases a.len(),
{
    if a.len() == 0 {
        b.len() > 0
    } else if b.len() == 0 {
        false
    } else if (a[0] as int) < (b[0] as int) {
        true
    } else if a[0] == b[0] {
        lex_lt(a.drop_first(), b.drop_first())
    } else {
        false
    }
}

/// `lex_lt` is total on distinct sequences and asymmetric.
pub proof fn lemma_lex_total(a: Seq<char>, b: Seq<char>)
    ensures
        a != b ==> (lex_lt(a, b) || lex_lt(b, a)),
        !(lex_lt(a, b) && lex_lt(b, a)),
    decreases a.len(),
{
    if a.len() > 0 && b.len() > 0 {
        lemma_lex_total(a.drop_first(), b.drop_first());
        if a[0] == b[0] && a.drop_first() == b.drop_first() {
            assert(a =~= seq![a[0]] + a.drop_first());
            assert(b =~= seq![b[0]] + b.drop_first());
        }
        if a[0] != b[0] {
            assert((a[0] as int) != (b[0] as int));
        }
    } else if a.len() == 0 && b.len() == 0 {
        assert(a =~= b);
    }
}

/// `lex_lt` is transitive.
pub proof fn lemma_lex_transitive(a: Seq<char>, b: Seq<char>, c: Seq<char>)
    requires
        lex_lt(a, b),
        lex_lt(b, c),
    ensures
        lex_lt(a, c),
    decreases a.len(),
{
    if a.len() > 0 && b.len() > 0 && c.len() > 0 && a[0] == b[0] && b[0] == c[0] {
        lemma_lex_transitive(a.drop_first(), b.drop_first(), c.drop_first());
    }
}

/// Whether `a` comes strictly before `b` in lexicographic order.
pub fn chars_less(a: &[char], b: &[char]) -> (r: bool)
    ensures
        r == lex_lt(a@, b@),
{
    let mut i: usize = 0;
    assert(a@.skip(0) =~= a@);
    assert(b@.skip(0) =~= b@);
    while i < a.len() && i < b.len() && a[i] == b[i]
        invariant
            i <= a@.len(),
            i <= b@.len(),
            forall|k: int| 0 <= k < i ==> a@[k] == b@[k],
            lex_lt(a@, b@) == lex_lt(a@.skip(i as int), b@.skip(i as int)),
        decreases a@.len() - i,
    {
        proof {
            let x = a@.skip(i as int);
            let y = b@.skip(i as int);
            assert(x.drop_first() =~= a@.skip(i + 1));
            assert(y.drop_first() =~= b@.skip(i + 1));
        }
        i = i + 1;
    }
    let ghost x = a@.skip(i as int);
    let ghost y = b@.skip(i as int);
    if i == a.len() {
        assert(x.len() == 0);
        i < b.len()
    } else if i == b.len() {
        assert(y.len() == 0);
        false
    } else {
        assert(x[0] == a@[i as int]);
        assert(y[0] == b@[i as int]);
        let ca = a[i];
        let cb = b[i];
        assert(ca != cb);
        let r = ca < cb;
        assert(r == ((x[0] as int) < (y[0] as int)));
        assert((x[0] as int) != (y[0] as int));
        r
    }
}

// ---------------------------------------------------------------------------
// Hexadecimal
// ---------------------------------------------------------------------------

/// The upper-case hexadecimal digit for `d` (0..=15).
pub open spec fn hex_digit(d: nat) -> char {
    if d < 10 { digit_char(d) } else if d == 10 { 'A' } else if d == 11 { 'B' } else if d == 12 { 'C' }
    else if d == 13 { 'D' } else if d == 14 { 'E' } else { 'F' }
}

/// Two upper-case hexadecimal digits per byte (`format!("{:02X}", b)` for each byte).
pub open spec fn hex_upper(bytes: Seq<u8>) -> Seq<char>
    decreases bytes.len(),
{
    if bytes.len() == 0 {
        Seq::empty()
    } else {
        hex_upper(bytes.drop_last()).push(hex_digit(bytes.last() as nat / 16)).push(
            hex_digit(bytes.last() as nat % 16),
        )
    }
}

fn hex_digit_char(d: u8) -> (c: char)
    requires
        d < 16,
    ensures
        c == hex_digit(d as nat),
{
    if d < 10 { digit_to_char(d as u64) } else if d == 10 { 'A' } else if d == 11 { 'B' }
    else if d == 12 { 'C' } else if d == 13 { 'D' } else if d == 14 { 'E' } else { 'F' }
}

/// Upper-case hexadecimal form of a byte string.
pub fn format_hex_upper(bytes: &[u8]) -> (r: String)
    ensures
        r@ == hex_upper(bytes@),
{
    let mut r = String::new();
    let mut i: usize = 0;
    while i < bytes.len()
        invariant
            i <= bytes@.len(),
            r@ == hex_upper(bytes@.take(i as int)),
        decreases bytes@.len() - i,
    {
        let b = bytes[i];
        push_char(&mut r, hex_digit_char(b / 16));
        push_char(&mut r, hex_digit_char(b % 16));
        assert(bytes@.take(i + 1).drop_last() =~= bytes@.take(i as int));
        i = i + 1;
    }
    assert(bytes@.take(bytes@.len() as int) =~= bytes@);
    r
}


// ---------------------------------------------------------------------------
// UTF-16
// ---------------------------------------------------------------------------

/// Whether `v` is a Unicode scalar value (a valid `char`).
pub open spec fn is_scalar_value(v: int) -> bool {
    (0 <= v <= 0xd7ff) || (0xe000 <= v <= 0x10ffff)
}

/// The code point of a character (`c as u32`).
pub fn char_code(c: char) -> (v: u32)
    ensures
        v as int == c as int,
        is_scalar_value(c as int),
{
    c as u32
}

/// `char::from_u32`: a character exactly when `v` is a Unicode scalar value, and
/// then the character with that value.
#[verifier::external_body]
pub(crate) fn char_from_u32(v: u32) -> (r: Option<char>)
    ensures
        r is Some <==> is_scalar_value(v as int),
        r matches Some(c) ==> c as int == v as int,
{
    char::from_u32(v)
}

/// Whether a UTF-16 code unit is a leading (high) surrogate.
pub open spec fn is_high_surrogate(u: u16) -> bool {
    0xd800 <= u <= 0xdbff
}

/// Whether a UTF-16 code unit is a trailing (low) surrogate.
pub open spec fn is_low_surrogate(u: u16) -> bool {
    0xdc00 <= u <= 0xdfff
}

/// The UTF-16 code units of one character.
pub open spec fn utf16_units(c: char) -> Seq<u16> {
    let v = c as int;
    if v < 0x10000 {
        seq![v as u16]
    } else {
        seq![(0xd800 + (v - 0x10000) / 1024) as u16, (0xdc00 + (v - 0x10000) % 1024) as u16]
    }
}

/// The UTF-16 encoding of a character sequence (`str::encode_utf16`).
pub open spec fn utf16_encode(s: Seq<char>) -> Seq<u16>
    decreases s.len(),
{
    if s.len() == 0 {
        Seq::empty()
    } else {
        utf16_units(s[0]) + utf16_encode(s.drop_first())
    }
}

/// The lossy UTF-16 decoding of code units (`String::from_utf16_lossy`): a surrogate
/// that is not part of a high-low pair becomes U+FFFD.
pub open spec fn utf16_decode(w: Seq<u16>) -> Seq<char>
    decreases w.len(),
{
    if w.len() == 0 {
        Seq::empty()
    } else if !is_high_surrogate(w[0]) && !is_low_surrogate(w[0]) {
        seq![w[0] as char] + utf16_decode(w.drop_first())
    } else if is_high_surrogate(w[0]) && w.len() > 1 && is_low_surrogate(w[1]) {
        seq![(0x10000 + (w[0] - 0xd800) * 1024 + (w[1] - 0xdc00)) as char] + utf16_decode(
            w.subrange(2, w.len() as int),
        )
    } else {
        seq!['\u{FFFD}'] + utf16_decode(w.drop_first())
    }
}

/// Encoding distributes over concatenation.
pub proof fn lemma_utf16_encode_append(a: Seq<char>, b: Seq<char>)
    ensures
        utf16_encode(a + b) == utf16_encode(a) + utf16_encode(b),
    decreases a.len(),
{
    if a.len() == 0 {
        assert(a + b =~= b);
        assert(utf16_encode(a) + utf16_encode(b) =~= utf16_encode(b));
    } else {
        assert((a + b).drop_first() =~= a.drop_first() + b);
        lemma_utf16_encode_append(a.drop_first(), b);
        assert(utf16_encode(a + b) =~= utf16_units(a[0]) + (utf16_encode(a.drop_first())
            + utf16_encode(b)));
    }
}

proof fn lemma_utf16_units_decode(c: char, rest: Seq<u16>)
    ensures
        utf16_decode(utf16_units(c) + rest) == seq![c] + utf16_decode(rest),
{
    let v = c as int;
    let w = utf16_units(c) + rest;
    if v < 0x10000 {
        assert(w[0] == v as u16);
        assert(w.drop_first() =~= rest);
        assert((w[0] as char) == c);
    } else {
        let hi = 0xd800 + (v - 0x10000) / 1024;
        let lo = 0xdc00 + (v - 0x10000) % 1024;
        assert(0 <= (v - 0x10000) / 1024 < 1024);
        assert(w[0] == hi as u16);
        assert(w[1] == lo as u16);
        assert(w.subrange(2, w.len() as int) =~= rest);
        assert((v - 0x10000) == ((v - 0x10000) / 1024) * 1024 + (v - 0x10000) % 1024)
            by (nonlinear_arith);
        assert(0x10000 + (w[0] - 0xd800) * 1024 + (w[1] - 0xdc00) == v);
        assert(((0x10000 + (w[0] - 0xd800) * 1024 + (w[1] - 0xdc00)) as char) == c);
    }
}

/// Decoding the UTF-16 encoding of a character sequence gives the sequence back.
pub proof fn lemma_utf16_round_trip(s: Seq<char>)
    ensures
        utf16_decode(utf16_encode(s)) == s,
    decreases s.len(),
{
    if s.len() > 0 {
        lemma_utf16_round_trip(s.drop_first());
        lemma_utf16_units_decode(s[0], utf16_encode(s.drop_first()));
        assert(s =~= seq![s[0]] + s.drop_first());
    }
}

/// A character encodes to no zero code unit unless it is NUL.
proof fn lemma_utf16_units_nonzero(c: char)
    ensures
        c != '\0' ==> forall|i: int| 0 <= i < utf16_units(c).len() ==> #[trigger] utf16_units(c)[i] != 0,
        utf16_units(c).len() == 1 || utf16_units(c).len() == 2,
{
    if c != '\0' {
        assert((c as int) != 0);
    }
}

/// The UTF-16 encoding of a sequence without NUL has no zero code unit.
pub proof fn lemma_utf16_encode_nonzero(s: Seq<char>)
    requires
        !s.contains('\0'),
    ensures
        forall|i: int| 0 <= i < utf16_encode(s).len() ==> #[trigger] utf16_encode(s)[i] != 0,
    decreases s.len(),
{
    if s.len() > 0 {
        assert(s[0] != '\0');
        assert forall|j: int| 0 <= j < s.drop_first().len() implies s.drop_first()[j] != '\0' by {
            assert(s.drop_first()[j] == s[j + 1]);
        }
        lemma_utf16_encode_nonzero(s.drop_first());
        lemma_utf16_units_nonzero(s[0]);
        let u = utf16_units(s[0]);
        let r = utf16_encode(s.drop_first());
        assert forall|i: int| 0 <= i < utf16_encode(s).len() implies #[trigger] utf16_encode(s)[i]
            != 0 by {
            if i < u.len() {
                assert(utf16_encode(s)[i] == u[i]);
            } else {
                assert(utf16_encode(s)[i] == r[i - u.len()]);
            }
        }
    }
}

/// The UTF-16 code units of a string (`s.encode_utf16().collect()`).
pub fn encode_utf16(s: &str) -> (w: Vec<u16>)
    ensures
        w@ == utf16_encode(s@),
{
    let cs = chars_of(s);
    let mut w: Vec<u16> = Vec::new();
    let mut i: usize = 0;
    while i < cs.len()
        invariant
            i <= cs@.len(),
            cs@ == s@,
            w@ == utf16_encode(cs@.take(i as int)),
        decreases cs@.len() - i,
    {
        let c = cs[i];
        let v = char_code(c);
        proof {
            lemma_utf16_encode_append(cs@.take(i as int), seq![c]);
            assert(cs@.take(i + 1) =~= cs@.take(i as int) + seq![c]);
            assert(utf16_encode(seq![c]) =~= utf16_units(c)) by {
                assert(seq![c].drop_first() =~= Seq::<char>::empty());
                assert(utf16_encode(seq![c].drop_first()) =~= Seq::<u16>::empty());
                assert(seq![c][0] == c);
            }
        }
        if v < 0x10000 {
            w.push(v as u16);
        } else {
            let x = v - 0x10000;
            w.push((0xd800 + x / 1024) as u16);
            w.push((0xdc00 + x % 1024) as u16);
        }
        assert(w@ =~= utf16_encode(cs@.take(i as int)) + utf16_units(c));
        i = i + 1;
    }
    assert(cs@.take(cs@.len() as int) =~= cs@);
    w
}

/// Lossy decoding of UTF-16 code units (`String::from_utf16_lossy`).
pub fn decode_utf16_lossy(w: &[u16]) -> (s: String)
    ensures
        s@ == utf16_decode(w@),
{
    let mut out: Vec<char> = Vec::new();
    let n = w.len();
    let mut i: usize = 0;
    assert(w@.skip(0) =~= w@);
    while i < n
        invariant
            i <= n,
            n == w@.len(),
            utf16_decode(w@) == out@ + utf16_decode(w@.skip(i as int)),
        decreases n - i,
    {
        let u = w[i];
        let ghost rest = w@.skip(i as int);
        assert(rest[0] == u);
        if u < 0xd800 || u > 0xdfff {
            let c = char_from_u32(u as u32).unwrap();
            assert(rest.drop_first() =~= w@.skip(i + 1));
            assert(c == (u as char));
            out.push(c);
            assert(out@ + utf16_decode(w@.skip(i + 1)) =~= (out@.drop_last()) + (seq![c]
                + utf16_decode(rest.drop_first())));
            i = i + 1;
        } else if u <= 0xdbff && i + 1 < n && w[i + 1] >= 0xdc00 && w[i + 1] <= 0xdfff {
            let u2 = w[i + 1];
            assert(rest[1] == u2);
            let v: u32 = 0x10000 + (u as u32 - 0xd800) * 1024 + (u2 as u32 - 0xdc00);
            let c = char_from_u32(v).unwrap();
            assert(c == (v as char));
            assert(rest.subrange(2, rest.len() as int) =~= w@.skip(i + 2));
            out.push(c);
            assert(out@ + utf16_decode(w@.skip(i + 2)) =~= (out@.drop_last()) + (seq![c]
                + utf16_decode(rest.subrange(2, rest.len() as int))));
            i = i + 2;
        } else {
            assert(rest.drop_first() =~= w@.skip(i + 1));
            out.push('\u{FFFD}');
            assert(out@ + utf16_decode(w@.skip(i + 1)) =~= (out@.drop_last()) + (seq!['\u{FFFD}']
                + utf16_decode(rest.drop_first())));
            i = i + 1;
        }
    }
    assert(w@.skip(n as int) =~= Seq::<u16>::empty());
    assert(out@ + Seq::<char>::empty() =~= out@);
    string_from_chars(out.as_slice())
}

// ---------------------------------------------------------------------------
// Joining and lines
// ---------------------------------------------------------------------------

/// The texts joined with `sep` between neighbours.
pub open spec fn join_with(parts: Seq<Seq<char>>, sep: Seq<char>) -> Seq<char>
    decreases parts.len(),
{
    if parts.len() == 0 {
        Seq::empty()
    } else if parts.len() == 1 {
        parts[0]
    } else {
        join_with(parts.drop_last(), sep) + sep + parts.last()
    }
}

/// Joins strings with a separator (`[..].join(sep)`).
pub fn join_strings(parts: &Vec<String>, sep: &str) -> (r: String)
    ensures
        r@ == join_with(parts@.map_values(|s: String| s@), sep@),
{
    let ghost v = parts@.map_values(|s: String| s@);
    let mut r = String::new();
    let mut i: usize = 0;
    while i < parts.len()
        invariant
            i <= parts@.len(),
            v == parts@.map_values(|s: String| s@),
            r@ == join_with(v.take(i as int), sep@),
        decreases parts@.len() - i,
    {
        assert(v.take(i + 1).drop_last() =~= v.take(i as int));
        assert(v.take(i + 1).last() == parts@[i as int]@);
        if i > 0 {
            append_str(&mut r, sep);
        } else {
            assert(v.take(i as int).len() == 0);
        }
        append_str(&mut r, parts[i].as_str());
        proof {
            if i == 0 {
                assert(r@ =~= v.take(1)[0]);
            }
        }
        i = i + 1;
    }
    assert(v.take(parts@.len() as int) =~= v);
    r
}

/// What `String::from_utf8_lossy` gives for a byte string.
pub uninterp spec fn utf8_lossy(bytes: Seq<u8>) -> Seq<char>;

/// `String::from_utf8_lossy`: the text that `utf8_lossy` names for the bytes,
/// which for valid UTF-8 is the decoded text.
#[verifier::external_body]
pub(crate) fn decode_utf8_lossy(bytes: &[u8]) -> (s: String)
    ensures
        s@ == utf8_lossy(bytes@),
        vstd::utf8::valid_utf8(bytes@) ==> s@ == vstd::utf8::decode_utf8(bytes@),
{
    String::from_utf8_lossy(bytes).into_owned()
}

/// The first line of a non-empty text (`str::lines().next()`): the characters
/// before the first line feed, without a carriage return just before it.
pub open spec fn first_line(t: Seq<char>) -> Seq<char> {
    if exists|k: int| 0 <= k < t.len() && t[k] == '\n' {
        let k = choose|k: int| 0 <= k < t.len() && t[k] == '\n' && forall|j: int| 0 <= j < k ==> t[j] != '\n';
        if k > 0 && t[k - 1] == '\r' { t.take(k - 1) } else { t.take(k) }
    } else {
        t
    }
}

/// The first line of a non-empty text.
pub fn first_line_of(t: &str) -> (r: String)
    requires
        t@.len() > 0,
    ensures
        r@ == first_line(t@),
{
    let cs = chars_of(t);
    let mut k: usize = 0;
    while k < cs.len() && cs[k] != '\n'
        invariant
            k <= cs@.len(),
            cs@ == t@,
            forall|j: int| 0 <= j < k ==> cs@[j] != '\n',
        decreases cs@.len() - k,
    {
        k = k + 1;
    }
    let mut end = k;
    if k < cs.len() {
        proof {
            let c = choose|c: int| 0 <= c < t@.len() && t@[c] == '\n' && forall|j: int| 0 <= j < c ==> t@[j] != '\n';
            assert(c == k as int) by {
                if c < k {
                    assert(cs@[c] != '\n');
                } else if c > k {
                    assert(t@[k as int] == '\n');
                }
            }
        }
        if k > 0 && cs[k - 1] == '\r' {
            end = k - 1;
        }
    }
    let r = string_from_chars(cs.as_slice().split_at(end).0);
    assert(cs@.take(end as int) =~= cs@.subrange(0, end as int));
    proof {
        if k == cs.len() {
            assert(cs@.take(end as int) =~= cs@);
        }
    }
    r
}

} // verus!
