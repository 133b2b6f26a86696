//! Character-level text handling: trimming, exact comparison, decimal
//! parsing, and the two normalisations applied to broker payloads.
use vstd::prelude::*;
use vstd::utf8::{decode_utf8, valid_utf8};

verus! {

broadcast use vstd::string::group_string_axioms;

/// `char::is_whitespace`: the Unicode `White_Space` property.
pub open spec fn is_white_space(c: char) -> bool {
    let n = c as u32;
    ||| 0x09 <= n <= 0x0D
    ||| n == 0x20
    ||| n == 0x85
    ||| n == 0xA0
    ||| n == 0x1680
    ||| 0x2000 <= n <= 0x200A
    ||| n == 0x2028
    ||| n == 0x2029
    ||| n == 0x202F
    ||| n == 0x205F
    ||| n == 0x3000
}

/// Drops the characters satisfying `p` from the front of `s`.
pub open spec fn strip_start(s: Seq<char>, p: spec_fn(char) -> bool) -> Seq<char>
    decreases s.len(),
{
    if s.len() > 0 && p(s[0]) {
        strip_start(s.drop_first(), p)
    } else {
        s
    }
}

/// Drops the characters satisfying `p` from the back of `s`.
pub open spec fn strip_end(s: Seq<char>, p: spec_fn(char) -> bool) -> Seq<char>
    decreases s.len(),
{
    if s.len() > 0 && p(s.last()) {
        strip_end(s.drop_last(), p)
    } else {
        s
    }
}

/// Drops the characters satisfying `p` from both ends of `s`.
pub open spec fn strip(s: Seq<char>, p: spec_fn(char) -> bool) -> Seq<char> {
    strip_end(strip_start(s, p), p)
}

/// `str::trim`: leading and trailing white space removed.
pub open spec fn trimmed(s: Seq<char>) -> Seq<char> {
    strip(s, |c: char| is_white_space(c))
}

/// `str::trim_end`: trailing white space removed.
pub open spec fn trimmed_end(s: Seq<char>) -> Seq<char> {
    strip_end(s, |c: char| is_white_space(c))
}

/// `str::trim_matches('/')`: leading and trailing slashes removed.
pub open spec fn without_slashes(s: Seq<char>) -> Seq<char> {
    strip(s, |c: char| c == '/')
}

pub proof fn lemma_strip_start_at(s: Seq<char>, p: spec_fn(char) -> bool, i: int)
    requires
        0 <= i <= s.len(),
        forall|j: int| 0 <= j < i ==> p(#[trigger] s[j]),
        i == s.len() || !p(s[i]),
    ensures
        strip_start(s, p) == s.skip(i),
    decreases i,
{
    if i > 0 {
        let t = s.drop_first();
        assert forall|j: int| 0 <= j < i - 1 implies p(#[trigger] t[j]) by {
            assert(t[j] == s[j + 1]);
        }
        if i - 1 < t.len() {
            assert(t[i - 1] == s[i]);
        }
        lemma_strip_start_at(t, p, i - 1);
        assert(t.skip(i - 1) =~= s.skip(i));
    } else {
        assert(s.skip(0) =~= s);
    }
}

pub proof fn lemma_strip_end_at(s: Seq<char>, p: spec_fn(char) -> bool, k: int)
    requires
        0 <= k <= s.len(),
        forall|j: int| k <= j < s.len() ==> p(#[trigger] s[j]),
        k == 0 || !p(s[k - 1]),
    ensures
        strip_end(s, p) == s.take(k),
    decreases s.len() - k,
{
    if k < s.len() {
        let t = s.drop_last();
        assert forall|j: int| k <= j < t.len() implies p(#[trigger] t[j]) by {
            assert(t[j] == s[j]);
        }
        if k > 0 {
            assert(t[k - 1] == s[k - 1]);
        }
        assert(p(s.last()));
        lemma_strip_end_at(t, p, k);
        assert(t.take(k) =~= s.take(k));
    } else {
        assert(s.take(k) =~= s);
    }
}

/// `trim_end` removes exactly the trailing white space: the result is a
/// prefix of the input, everything after it is white space, and it does not
/// itself end in white space. Leading white space is kept.
pub proof fn law_trim_end_removes_trailing_space(s: Seq<char>)
    ensures
        trimmed_end(s).len() <= s.len(),
        trimmed_end(s) == s.take(trimmed_end(s).len() as int),
        forall|i: int| trimmed_end(s).len() <= i < s.len() ==> is_white_space(#[trigger] s[i]),
        trimmed_end(s).len() == 0 || !is_white_space(trimmed_end(s).last()),
    decreases s.len(),
{
    if s.len() > 0 && is_white_space(s.last()) {
        let t = s.drop_last();
        law_trim_end_removes_trailing_space(t);
        assert(trimmed_end(s) == trimmed_end(t));
        let n = trimmed_end(t).len() as int;
        assert(t.take(n) =~= s.take(n));
        assert forall|i: int| n <= i < s.len() implies is_white_space(#[trigger] s[i]) by {
            if i < t.len() {
                assert(t[i] == s[i]);
            }
        }
    } else {
        assert(s.take(s.len() as int) =~= s);
    }
}

/// `trim_start` removes exactly the leading white space: the result is a
/// suffix of the input, everything before it is white space, and it does not
/// itself start with white space.
pub proof fn law_trim_start_removes_leading_space(s: Seq<char>)
    ensures
        strip_start(s, |c: char| is_white_space(c)).len() <= s.len(),
        strip_start(s, |c: char| is_white_space(c)) == s.skip(
            s.len() - strip_start(s, |c: char| is_white_space(c)).len(),
        ),
        forall|i: int|
            0 <= i < s.len() - strip_start(s, |c: char| is_white_space(c)).len() ==> is_white_space(
                #[trigger] s[i],
            ),
        strip_start(s, |c: char| is_white_space(c)).len() == 0 || !is_white_space(
            strip_start(s, |c: char| is_white_space(c))[0],
        ),
    decreases s.len(),
{
    let p = |c: char| is_white_space(c);
    if s.len() > 0 && is_white_space(s[0]) {
        let t = s.drop_first();
        law_trim_start_removes_leading_space(t);
        assert(strip_start(s, p) == strip_start(t, p));
        let k = t.len() - strip_start(t, p).len();
        assert(t.skip(k) =~= s.skip(k + 1));
        assert forall|i: int| 0 <= i < k + 1 implies is_white_space(#[trigger] s[i]) by {
            if i > 0 {
                assert(t[i - 1] == s[i]);
            }
        }
    } else {
        assert(s.skip(0) =~= s);
    }
}

/// `trim` removes exactly the white space at both ends: the result is a
/// contiguous piece of the input, everything before and after it is white
/// space, and it neither starts nor ends with white space.
pub proof fn law_trim_removes_surrounding_space(s: Seq<char>)
    ensures
        ({
            let k = s.len() - strip_start(s, |c: char| is_white_space(c)).len();
            let n = trimmed(s).len();
            &&& 0 <= k && k + n <= s.len()
            &&& trimmed(s) == s.subrange(k, k + n)
            &&& forall|i: int| 0 <= i < k ==> is_white_space(#[trigger] s[i])
            &&& forall|i: int| k + n <= i < s.len() ==> is_white_space(#[trigger] s[i])
            &&& n == 0 || (!is_white_space(trimmed(s)[0]) && !is_white_space(trimmed(s).last()))
        }),
{
    let p = |c: char| is_white_space(c);
    law_trim_start_removes_leading_space(s);
    let u = strip_start(s, p);
    law_trim_end_removes_trailing_space(u);
    let k = s.len() - u.len();
    let n = trimmed(s).len() as int;
    assert(trimmed(s) == trimmed_end(u));
    assert(trimmed(s) =~= s.subrange(k, k + n));
    assert forall|i: int| k + n <= i < s.len() implies is_white_space(#[trigger] s[i]) by {
        assert(u[i - k] == s[i]);
    }
    if n > 0 {
        assert(trimmed(s)[0] == u[0]);
    }
}

/// The characters of `s`, in order.
pub fn chars_of(s: &str) -> (v: Vec<char>)
    ensures
        v@ == s@,
{
    let mut v: Vec<char> = Vec::new();
    for c in it: s.chars()
        invariant
            v@ == it.seq().take(it.index() as int),
    {
        v.push(c);
    }
    v
}

/// Which characters a trim removes.
#[derive(Clone, Copy)]
enum TrimClass {
    WhiteSpace,
    Slash,
}

spec fn trim_pred(k: TrimClass) -> spec_fn(char) -> bool {
    match k {
        TrimClass::WhiteSpace => |c: char| is_white_space(c),
        TrimClass::Slash => |c: char| c == '/',
    }
}

fn removes(k: TrimClass, c: char) -> (r: bool)
    ensures
        r == trim_pred(k)(c),
{
    match k {
        TrimClass::Slash => c == '/',
        TrimClass::WhiteSpace => {
            let n = c as u32;
            (0x09 <= n && n <= 0x0D) || n == 0x20 || n == 0x85 || n == 0xA0 || n == 0x1680 || (
            0x2000 <= n && n <= 0x200A) || n == 0x2028 || n == 0x2029 || n == 0x202F || n
                == 0x205F || n == 0x3000
        },
    }
}

/// Index of the first kept character and one past the last kept character.
fn kept_bounds(v: &Vec<char>, k: TrimClass, both_ends: bool) -> (r: (usize, usize))
    ensures
        r.0 <= r.1 <= v@.len(),
        both_ends ==> strip(v@, trim_pred(k)) == v@.subrange(r.0 as int, r.1 as int),
        !both_ends ==> r.0 == 0 && strip_end(v@, trim_pred(k)) == v@.subrange(0, r.1 as int),
{
    let ghost p = trim_pred(k);
    let n = v.len();
    let mut i: usize = 0;
    if both_ends {
        while i < n && removes(k, v[i])
            invariant
                i <= n == v@.len(),
                p == trim_pred(k),
                forall|j: int| 0 <= j < i ==> p(#[trigger] v@[j]),
            decreases n - i,
        {
            i = i + 1;
        }
        proof {
            lemma_strip_start_at(v@, p, i as int);
        }
    }
    let ghost t = v@.skip(i as int);
    let mut j: usize = n;
    while j > i && removes(k, v[j - 1])
        invariant
            i <= j <= n == v@.len(),
            t == v@.skip(i as int),
            p == trim_pred(k),
            forall|m: int| j <= m < n ==> p(#[trigger] v@[m]),
        decreases j,
    {
        j = j - 1;
    }
    proof {
        assert forall|m: int| j - i <= m < t.len() implies p(#[trigger] t[m]) by {
            assert(t[m] == v@[m + i]);
        }
        if j > i {
            assert(t[j - i - 1] == v@[j - 1]);
        }
        lemma_strip_end_at(t, p, j - i);
        assert(t.take(j - i) =~= v@.subrange(i as int, j as int));
        if !both_ends {
            assert(t =~= v@);
        }
    }
    (i, j)
}

fn trim_by(s: &str, k: TrimClass, both_ends: bool) -> (r: String)
    ensures
        both_ends ==> r@ == strip(s@, trim_pred(k)),
        !both_ends ==> r@ == strip_end(s@, trim_pred(k)),
{
    let v = chars_of(s);
    let (i, j) = kept_bounds(&v, k, both_ends);
    s.substring_char(i, j).to_owned()
}

/// `s.trim()` as an owned string.
pub fn trim(s: &str) -> (r: String)
    ensures
        r@ == trimmed(s@),
{
    trim_by(s, TrimClass::WhiteSpace, true)
}

/// `s.trim_end()` as an owned string.
pub fn trim_end(s: &str) -> (r: String)
    ensures
        r@ == trimmed_end(s@),
{
    trim_by(s, TrimClass::WhiteSpace, false)
}

/// `s.trim_matches('/')` as an owned string.
pub fn trim_slashes(s: &str) -> (r: String)
    ensures
        r@ == without_slashes(s@),
{
    trim_by(s, TrimClass::Slash, true)
}

/// Exact, character-by-character equality.
pub fn same_text(a: &str, b: &str) -> (r: bool)
    ensures
        r == (a@ == b@),
{
    a.to_owned() == b.to_owned()
}

/// An ASCII decimal digit.
pub open spec fn is_digit(c: char) -> bool {
    48 <= (c as u32) <= 57
}

pub open spec fn all_digits(s: Seq<char>) -> bool {
    forall|i: int| 0 <= i < s.len() ==> is_digit(#[trigger] s[i])
}

/// The value of a string of decimal digits (most significant first).
pub open spec fn digits_value(s: Seq<char>) -> nat
    decreases s.len(),
{
    if s.len() == 0 {
        0
    } else {
        digits_value(s.drop_last()) * 10 + ((s.last() as u32) - 48) as nat
    }
}

/// The digits after an optional leading `+`.
pub open spec fn unsigned_digits(s: Seq<char>) -> Seq<char> {
    if s.len() > 0 && s[0] == '+' {
        s.drop_first()
    } else {
        s
    }
}

/// `s.parse::<u16>().ok()`: an optional `+`, then at least one ASCII digit,
/// with a value that fits in 16 bits.
pub open spec fn parsed_u16(s: Seq<char>) -> Option<u16> {
    let d = unsigned_digits(s);
    if d.len() > 0 && all_digits(d) && digits_value(d) <= 65535 {
        Some(digits_value(d) as u16)
    } else {
        None
    }
}

/// Port parsing reads decimal digits: one digit is its value; a further
/// digit multiplies by ten and adds, as long as the value fits in 16 bits,
/// and gives nothing once it does not; a leading `+` is allowed; an empty
/// text, a lone `+`, or any other character gives nothing.
pub proof fn law_u16_reads_decimal(d: Seq<char>, c: char)
    ensures
        is_digit(c) ==> parsed_u16(seq![c]) == Some(((c as u32) - 48) as u16),
        parsed_u16(seq![]) is None,
        parsed_u16(seq!['+']) is None,
        d.len() > 0 && d[0] != '+' ==> parsed_u16(seq!['+'] + d) == parsed_u16(d),
        parsed_u16(d) is Some && is_digit(c) ==> {
            let v = parsed_u16(d)->0;
            let w = 10 * v + ((c as u32) - 48);
            parsed_u16(d.push(c)) == (if w <= 65535 {
                Some(w as u16)
            } else {
                None
            })
        },
        !is_digit(c) && c != '+' ==> parsed_u16(d.push(c)) is None,
{
    if is_digit(c) {
        let one = seq![c];
        assert(unsigned_digits(one) == one);
        assert(one.drop_last() =~= seq![]);
        assert(digits_value(one) == ((c as u32) - 48) as nat);
    }
    assert(unsigned_digits(seq!['+']) =~= seq![]);
    if d.len() > 0 && d[0] != '+' {
        assert((seq!['+'] + d).drop_first() =~= d);
    }
    if parsed_u16(d) is Some && is_digit(c) {
        let u = unsigned_digits(d);
        assert(d.len() > 0);
        assert(unsigned_digits(d.push(c)) =~= u.push(c));
        assert(u.push(c).drop_last() =~= u);
        assert(all_digits(u.push(c))) by {
            assert forall|i: int| 0 <= i < u.push(c).len() implies is_digit(#[trigger] u.push(c)[i]) by {
                if i < u.len() {
                    assert(u.push(c)[i] == u[i]);
                }
            }
        }
    }
    if !is_digit(c) && c != '+' {
        let e = d.push(c);
        let u = unsigned_digits(e);
        if u.len() > 0 {
            assert(u.last() == c);
            assert(!is_digit(u[u.len() - 1]));
        }
    }
}

proof fn lemma_digits_value_grows(d: Seq<char>, k: int)
    requires
        0 <= k <= d.len(),
        all_digits(d),
    ensures
        digits_value(d.take(k)) <= digits_value(d),
    decreases d.len() - k,
{
    if k < d.len() {
        lemma_digits_value_grows(d, k + 1);
        assert(d.take(k + 1).drop_last() =~= d.take(k));
        assert(is_digit(d[k]));
    } else {
        assert(d.take(k) =~= d);
    }
}

/// `s.parse::<u16>().ok()`.
pub fn parse_u16(s: &str) -> (r: Option<u16>)
    ensures
        r == parsed_u16(s@),
{
    let v = chars_of(s);
    let n = v.len();
    let start: usize = if n > 0 && v[0] == '+' { 1 } else { 0 };
    let ghost d = unsigned_digits(v@);
    proof {
        if start == 1 {
            assert(d =~= v@.subrange(1, n as int));
        } else {
            assert(d =~= v@.subrange(0, n as int));
        }
    }
    if start == n {
        return None;
    }
    let mut acc: u32 = 0;
    let mut i: usize = start;
    while i < n
        invariant
            start <= i <= n == v@.len(),
            start < n,
            d == v@.subrange(start as int, n as int),
            d == unsigned_digits(s@),
            v@ == s@,
            all_digits(d.take(i - start)),
            acc as nat == digits_value(d.take(i - start)),
            acc <= 65535,
        decreases n - i,
    {
        let c = v[i];
        let code = c as u32;
        assert(d[i - start] == c);
        if code < 48 || code > 57 {
            assert(!is_digit(d[i - start]));
            return None;
        }
        acc = acc * 10 + (code - 48);
        assert(d.take(i + 1 - start).drop_last() =~= d.take(i - start));
        assert(d.take(i + 1 - start).last() == c);
        if acc > 65535 {
            proof {
                if all_digits(d) {
                    lemma_digits_value_grows(d, i + 1 - start);
                }
            }
            return None;
        }
        i = i + 1;
    }
    assert(d.take(n - start) =~= d);
    Some(acc as u16)
}

/// What `str::to_lowercase` returns for a string: its Unicode lowercase
/// mapping.
pub uninterp spec fn lowercase(s: Seq<char>) -> Seq<char>;

/// A character lowercased the ASCII way: `A`-`Z` become `a`-`z`, every
/// other character stays.
pub open spec fn ascii_lower(c: char) -> char {
    if 'A' <= c <= 'Z' {
        ((c as int) + 32) as char
    } else {
        c
    }
}

/// `str::to_lowercase`. Trusted: the result is the Unicode lowercase mapping
/// of `s`, which the contract names and does not spell out beyond ASCII
/// text, where that mapping lowers `A`-`Z` and keeps every other character.
#[verifier::external_body]
pub(crate) fn to_lowercase(s: &str) -> (r: String)
    ensures
        r@ == lowercase(s@),
        (forall|i: int| 0 <= i < s@.len() ==> (#[trigger] s@[i] as int) < 128) ==> r@ == s@.map_values(
            |c: char| ascii_lower(c),
        ),
{
    s.to_lowercase()
}

/// What `String::from_utf8_lossy` returns for a byte string: its UTF-8
/// decoding with every invalid sequence replaced by U+FFFD.
pub uninterp spec fn utf8_lossy(bytes: Seq<u8>) -> Seq<char>;

/// `String::from_utf8_lossy`. Trusted: the result is named by `utf8_lossy`,
/// and on valid UTF-8 it is the plain decoding, as std documents.
#[verifier::external_body]
pub(crate) fn from_utf8_lossy(bytes: &[u8]) -> (r: String)
    ensures
        r@ == utf8_lossy(bytes@),
        valid_utf8(bytes@) ==> r@ == decode_utf8(bytes@),
{
    String::from_utf8_lossy(bytes).into_owned()
}

} // verus!
