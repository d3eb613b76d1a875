//! Text helpers shared by the rest of the library: conversions between
//! `String` and character vectors, decimal rendering and parsing of
//! integers, and joining of string lists.
use vstd::prelude::*;
use itertools::Itertools;

verus! {

/// Appends one character to a string (`String::push`).
///
/// Trusted: std's `String::push` appends the character at the end.
#[verifier::external_body]
pub(crate) fn push_char(s: &mut String, c: char)
    ensures
        final(s)@ == old(s)@.push(c),
{
    s.push(c);
}

/// The characters of a string slice, in order.
pub fn chars_of(s: &str) -> (out: Vec<char>)
    ensures
        out@ == s@,
{
    let n = s.unicode_len();
    let mut out: Vec<char> = Vec::new();
    let mut i: usize = 0;
    while i < n
        invariant
            n == s@.len(),
            i <= n,
            out@ == s@.subrange(0, i as int),
        decreases n - i,
    {
        let c = s.get_char(i);
        out.push(c);
        i = i + 1;
        assert(out@ =~= s@.subrange(0, i as int));
    }
    assert(out@ =~= s@);
    out
}

/// Builds a string holding exactly the given characters.
pub fn string_of(chars: &Vec<char>) -> (s: String)
    ensures
        s@ == chars@,
{
    let mut s = String::new();
    let mut i: usize = 0;
    while i < chars.len()
        invariant
            i <= chars.len(),
            s@ == chars@.subrange(0, i as int),
        decreases chars.len() - i,
    {
        push_char(&mut s, chars[i]);
        i = i + 1;
        assert(s@ =~= chars@.subrange(0, i as int));
    }
    assert(s@ =~= chars@);
    s
}

/// Appends all characters of `src` to `out`.
pub fn extend_chars(out: &mut Vec<char>, src: &Vec<char>)
    ensures
        final(out)@ == old(out)@ + src@,
{
    let mut i: usize = 0;
    while i < src.len()
        invariant
            i <= src.len(),
            out@ == old(out)@ + src@.subrange(0, i as int),
        decreases src.len() - i,
    {
        out.push(src[i]);
        i = i + 1;
        assert(out@ =~= old(out)@ + src@.subrange(0, i as int));
    }
    assert(src@.subrange(0, src@.len() as int) =~= src@);
}

/// Appends all characters of the string slice `src` to `out`.
pub fn extend_str(out: &mut Vec<char>, src: &str)
    ensures
        final(out)@ == old(out)@ + src@,
{
    let cs = chars_of(src);
    extend_chars(out, &cs);
}

/// Concatenation of two strings.
pub fn concat(a: &str, b: &str) -> (s: String)
    ensures
        s@ == a@ + b@,
{
    let mut cs = chars_of(a);
    extend_str(&mut cs, b);
    string_of(&cs)
}

/// The decimal digit character for `d` (which is below ten).
pub open spec fn digit_char(d: nat) -> char {
    ((48 + d) as u32) as char
}

/// The decimal rendering of a natural number, without sign or leading zeros.
pub open spec fn decimal(n: nat) -> Seq<char>
    decreases n,
{
    if n < 10 {
        seq![digit_char(n)]
    } else {
        decimal(n / 10).push(digit_char(n % 10))
    }
}

/// A character that is an ASCII decimal digit.
pub open spec fn is_digit(c: char) -> bool {
    '0' <= c && c <= '9'
}

/// The value of an ASCII decimal digit character.
pub open spec fn digit_value(c: char) -> nat {
    ((c as u32) - 48) as nat
}

/// The value of a non-empty sequence of decimal digits.
pub open spec fn digits_value(s: Seq<char>) -> nat
    decreases s.len(),
{
    if s.len() == 0 {
        0
    } else {
        digits_value(s.drop_last()) * 10 + digit_value(s.last())
    }
}

pub open spec fn all_digits(s: Seq<char>) -> bool {
    forall|i: int| 0 <= i < s.len() ==> is_digit(#[trigger] s[i])
}

fn digit_of(d: u64) -> (c: char)
    requires
        d < 10,
    ensures
        c == digit_char(d as nat),
{
    let b: u8 = 48u8 + (d as u8);
    b as char
}

/// Appends the decimal rendering of `n`.
pub fn push_decimal(out: &mut Vec<char>, n: u64)
    ensures
        final(out)@ == old(out)@ + decimal(n as nat),
    decreases n,
{
    if n >= 10 {
        push_decimal(out, n / 10);
    }
    let c = digit_of(n % 10);
    out.push(c);
    assert(final(out)@ =~= old(out)@ + decimal(n as nat)) by {
        if n >= 10 {
            assert(decimal(n as nat) == decimal((n / 10) as nat).push(digit_char((n % 10) as nat)));
        }
    }
}

/// The decimal rendering of `n` as a string (`u64::to_string`).
pub fn u64_to_string(n: u64) -> (s: String)
    ensures
        s@ == decimal(n as nat),
{
    let mut cs: Vec<char> = Vec::new();
    push_decimal(&mut cs, n);
    assert(cs@ =~= decimal(n as nat));
    string_of(&cs)
}

proof fn lemma_digit_char(d: nat)
    requires
        d < 10,
    ensures
        digit_char(d) as u32 == 48 + d,
        is_digit(digit_char(d)),
        digit_value(digit_char(d)) == d,
        digit_char(d) == '0' <==> d == 0,
{
    assert(((48 + d) as u32) as char as u32 == (48 + d) as u32);
}

/// Every character of a decimal rendering is a digit, and it is non-empty.
pub proof fn lemma_decimal_digits(n: nat)
    ensures
        decimal(n).len() >= 1,
        all_digits(decimal(n)),
        decimal(n).len() > 1 ==> decimal(n)[0] != '0',
    decreases n,
{
    lemma_digit_char(n % 10);
    if n >= 10 {
        lemma_decimal_digits(n / 10);
        lemma_digit_char((n / 10) % 10);
        assert(decimal(n)[0] == decimal(n / 10)[0]);
        assert forall|i: int| 0 <= i < decimal(n).len() implies is_digit(#[trigger] decimal(n)[i]) by {
            if i < decimal(n).len() - 1 {
                assert(decimal(n)[i] == decimal(n / 10)[i]);
            }
        }
        if n / 10 < 10 {
            lemma_digit_char(n / 10);
            assert(decimal(n / 10) == seq![digit_char(n / 10)]);
            assert(n / 10 != 0);
        } else {
            lemma_decimal_digits((n / 10) / 10);
            assert(decimal(n / 10).len() > 1);
        }
    } else {
        lemma_digit_char(n);
    }
}

/// Reading back a decimal rendering gives the number.
pub proof fn lemma_decimal_value(n: nat)
    ensures
        digits_value(decimal(n)) == n,
    decreases n,
{
    lemma_digit_char(n % 10);
    if n < 10 {
        lemma_digit_char(n);
        assert(decimal(n).drop_last() =~= Seq::<char>::empty());
        assert(decimal(n).last() == digit_char(n));
        assert(digits_value(decimal(n)) == digits_value(Seq::<char>::empty()) * 10 + digit_value(
            digit_char(n),
        ));
    } else {
        lemma_decimal_value(n / 10);
        assert(decimal(n).drop_last() =~= decimal(n / 10));
        assert(decimal(n).last() == digit_char(n % 10));
        assert(n == (n / 10) * 10 + n % 10) by (nonlinear_arith);
        assert(digits_value(decimal(n)) == digits_value(decimal(n / 10)) * 10 + digit_value(
            digit_char(n % 10),
        ));
    }
}

/// What `usize::from_str` accepts: an optional `+`, then one or more
/// decimal digits, with a value that fits in `usize`.
pub open spec fn usize_digits(s: Seq<char>) -> Seq<char> {
    if s.len() > 0 && s[0] == '+' {
        s.drop_first()
    } else {
        s
    }
}

pub open spec fn parses_as_usize(s: Seq<char>) -> bool {
    let d = usize_digits(s);
    &&& d.len() > 0
    &&& all_digits(d)
    &&& digits_value(d) <= usize::MAX
}

/// Parsing the decimal rendering of a number that fits in `usize` gives the
/// number back.
pub proof fn lemma_parse_decimal_roundtrip(n: nat)
    requires
        n <= usize::MAX,
    ensures
        parses_as_usize(decimal(n)),
        digits_value(usize_digits(decimal(n))) == n,
{
    lemma_decimal_digits(n);
    lemma_decimal_value(n);
    assert(is_digit(decimal(n)[0]));
    assert(usize_digits(decimal(n)) == decimal(n));
}

/// Parses a decimal `usize` as `str::parse::<usize>` does: `Some` exactly
/// when the text is an optional `+` followed by digits whose value fits.
pub fn parse_usize(s: &str) -> (r: Option<usize>)
    ensures
        r.is_some() <==> parses_as_usize(s@),
        r matches Some(v) ==> v as nat == digits_value(usize_digits(s@)),
{
    let cs = chars_of(s);
    let mut start: usize = 0;
    if cs.len() > 0 && cs[0] == '+' {
        start = 1;
    }
    let ghost d = usize_digits(s@);
    assert(d =~= cs@.subrange(start as int, cs@.len() as int));
    if start >= cs.len() {
        return None;
    }
    let mut acc: usize = 0;
    let mut i: usize = start;
    while i < cs.len()
        invariant
            start <= i <= cs.len(),
            start < cs.len(),
            cs@ == s@,
            d == usize_digits(s@),
            d == cs@.subrange(start as int, cs@.len() as int),
            all_digits(cs@.subrange(start as int, i as int)),
            acc as nat == digits_value(cs@.subrange(start as int, i as int)),
        decreases cs.len() - i,
    {
        let c = cs[i];
        assert(cs@.subrange(start as int, i + 1).drop_last() =~= cs@.subrange(start as int, i as int));
        if !('0' <= c && c <= '9') {
            assert(!all_digits(d)) by {
                assert(d[i - start] == c);
            }
            return None;
        }
        let dv: usize = ((c as u32) - 48) as usize;
        let mul = acc.checked_mul(10);
        match mul {
            None => {
                proof {
                    lemma_digits_prefix_bound(d, (i + 1 - start) as nat);
                    assert(d.subrange(0, (i + 1 - start) as int) =~= cs@.subrange(
                        start as int,
                        i + 1,
                    ));
                }
                return None;
            },
            Some(m) => {
                match m.checked_add(dv) {
                    None => {
                        proof {
                            lemma_digits_prefix_bound(d, (i + 1 - start) as nat);
                            assert(d.subrange(0, (i + 1 - start) as int) =~= cs@.subrange(
                                start as int,
                                i + 1,
                            ));
                        }
                        return None;
                    },
                    Some(v) => {
                        acc = v;
                    },
                }
            },
        }
        i = i + 1;
        assert(all_digits(cs@.subrange(start as int, i as int))) by {
            assert forall|k: int| 0 <= k < i - start implies is_digit(
                #[trigger] cs@.subrange(start as int, i as int)[k],
            ) by {
                if k < i - 1 - start {
                    assert(cs@.subrange(start as int, i - 1)[k] == cs@[start + k]);
                }
            }
        }
    }
    assert(cs@.subrange(start as int, i as int) =~= d);
    Some(acc)
}

/// The value of a digit prefix never exceeds the value of the whole.
proof fn lemma_digits_prefix_bound(d: Seq<char>, k: nat)
    requires
        k <= d.len(),
    ensures
        digits_value(d.subrange(0, k as int)) <= digits_value(d),
    decreases d.len() - k,
{
    if k == d.len() {
        assert(d.subrange(0, k as int) =~= d);
    } else {
        lemma_digits_prefix_bound(d, k + 1);
        assert(d.subrange(0, (k + 1) as int).drop_last() =~= d.subrange(0, k as int));
    }
}

/// Joins the parts with the separator between consecutive parts.
pub open spec fn join(parts: Seq<Seq<char>>, sep: Seq<char>) -> Seq<char>
    decreases parts.len(),
{
    if parts.len() == 0 {
        Seq::empty()
    } else if parts.len() == 1 {
        parts[0]
    } else {
        join(parts.drop_last(), sep) + sep + parts.last()
    }
}

/// The views of a list of strings.
pub open spec fn views(v: Seq<String>) -> Seq<Seq<char>> {
    v.map_values(|s: String| s@)
}

/// Joins a list of strings with a separator (`[String]::join`).
pub fn join_strings(list: &Vec<String>, sep: &str) -> (res: Vec<char>)
    ensures
        res@ == join(views(list@), sep@),
{
    let mut res: Vec<char> = Vec::new();
    let ghost parts = views(list@);
    let mut i: usize = 0;
    while i < list.len()
        invariant
            i <= list.len(),
            parts == views(list@),
            res@ == join(parts.take(i as int), sep@),
        decreases list.len() - i,
    {
        assert(parts.take(i + 1).drop_last() =~= parts.take(i as int));
        if i != 0 {
            extend_str(&mut res, sep);
        }
        extend_str(&mut res, list[i].as_str());
        i = i + 1;
        assert(res@ =~= join(parts.take(i as int), sep@));
    }
    assert(parts.take(list.len() as int) =~= parts);
    res
}

/// Equality of two texts.
pub fn str_eq(a: &str, b: &str) -> (r: bool)
    ensures
        r <==> a@ == b@,
{
    let x = chars_of(a);
    let y = chars_of(b);
    if x.len() != y.len() {
        return false;
    }
    let mut i: usize = 0;
    while i < x.len()
        invariant
            i <= x.len(),
            x.len() == y.len(),
            x@ == a@,
            y@ == b@,
            forall|k: int| 0 <= k < i ==> x@[k] == y@[k],
        decreases x.len() - i,
    {
        if x[i] != y[i] {
            return false;
        }
        i = i + 1;
    }
    assert(x@ =~= y@);
    true
}

/// Whether the list holds the text.
pub fn contains_str(list: &Vec<String>, s: &str) -> (r: bool)
    ensures
        r <==> views(list@).contains(s@),
{
    let mut i: usize = 0;
    while i < list.len()
        invariant
            i <= list.len(),
            forall|k: int| 0 <= k < i ==> list@[k]@ != s@,
        decreases list.len() - i,
    {
        if str_eq(list[i].as_str(), s) {
            assert(views(list@)[i as int] == s@);
            return true;
        }
        i = i + 1;
    }
    assert forall|k: int| 0 <= k < views(list@).len() implies views(list@)[k] != s@ by {
        assert(views(list@)[k] == list@[k]@);
    }
    false
}

/// The lower-case form of a text, as std's `str::to_lowercase` computes it.
pub uninterp spec fn lowercase(s: Seq<char>) -> Seq<char>;

/// The ASCII lower-case form of a character: `A` to `Z` become `a` to `z`.
pub open spec fn ascii_lower_char(c: char) -> char {
    if 'A' <= c && c <= 'Z' {
        ((c as u32) + 32) as char
    } else {
        c
    }
}

/// The ASCII lower-case form of a text, character by character.
pub open spec fn ascii_lowercase(s: Seq<char>) -> Seq<char> {
    s.map_values(|c: char| ascii_lower_char(c))
}

/// Lower-cases a text (`str::to_lowercase`).
///
/// Trusted: the result of std's `str::to_lowercase` is a function of the
/// text alone, and on ASCII text it maps `A`-`Z` to `a`-`z` and keeps every
/// other character, as std documents; the Unicode case mapping of other
/// text is left unstated.
#[verifier::external_body]
pub(crate) fn to_lowercase(s: &str) -> (r: String)
    ensures
        r@ == lowercase(s@),
        vstd::utf8::is_ascii_chars(s@) ==> r@ == ascii_lowercase(s@),
{
    s.to_lowercase()
}

/// The `Debug` rendering of a text (quoted and escaped), as std writes it.
pub uninterp spec fn debug_text(s: Seq<char>) -> Seq<char>;

/// The `Debug` rendering of a text (`format!("{:?}", s)`).
///
/// Trusted: std's `Debug` for `str` depends on the text alone; its quoting
/// and escaping rules are left unstated.
#[verifier::external_body]
pub(crate) fn debug_str(s: &str) -> (r: String)
    ensures
        r@ == debug_text(s@),
{
    format!("{:?}", s)
}

/// Byte-wise lexicographic order.
pub open spec fn bytes_le(a: Seq<u8>, b: Seq<u8>) -> bool
    decreases a.len(),
{
    if a.len() == 0 {
        true
    } else if b.len() == 0 {
        false
    } else if a[0] != b[0] {
        a[0] < b[0]
    } else {
        bytes_le(a.drop_first(), b.drop_first())
    }
}

/// The order of strings: lexicographic by their UTF-8 bytes.
pub open spec fn text_le(a: Seq<char>, b: Seq<char>) -> bool {
    bytes_le(vstd::utf8::encode_utf8(a), vstd::utf8::encode_utf8(b))
}

/// Texts in ascending order.
pub open spec fn texts_sorted(s: Seq<Seq<char>>) -> bool {
    forall|i: int, j: int| 0 <= i < j < s.len() ==> text_le(#[trigger] s[i], #[trigger] s[j])
}

/// `out` holds the texts of `inp`, each as often, in ascending order.
pub open spec fn is_sorted_permutation(out: Seq<Seq<char>>, inp: Seq<Seq<char>>) -> bool {
    &&& out.to_multiset() == inp.to_multiset()
    &&& texts_sorted(out)
}

/// Sorts strings in ascending order (`Itertools::sorted`).
///
/// Trusted: itertools' `sorted` collects the items and sorts them with
/// `slice::sort`, giving the same strings in ascending order.
#[verifier::external_body]
pub(crate) fn sorted_strings(v: Vec<String>) -> (r: Vec<String>)
    ensures
        is_sorted_permutation(views(r@), views(v@)),
{
    v.into_iter().sorted().collect()
}

/// Sorts strings in place, in ascending order (`slice::sort`).
///
/// Trusted: std's `sort` keeps the same strings and puts them in ascending
/// order.
#[verifier::external_body]
pub(crate) fn sort_strings(v: &mut Vec<String>)
    ensures
        is_sorted_permutation(views(final(v)@), views(old(v)@)),
{
    v.sort();
}

} // verus!
