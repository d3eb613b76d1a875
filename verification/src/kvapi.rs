//! Meta-service keys: escaping of key segments and the tenant-scoped
//! identifier `TIdent`, which renders as `<prefix>/<tenant>/<name>` and is
//! read back from that form.
use vstd::prelude::*;
use vstd::utf8::*;
use crate::text::{push_char, chars_of};
use core::marker::PhantomData;

verus! {

broadcast use vstd::utf8::group_utf8_lib;

// ---------------------------------------------------------------------------
// Segment escaping
// ---------------------------------------------------------------------------

/// A byte that is kept as it is in a key segment: a digit, an ASCII letter
/// or `_`.
pub open spec fn is_plain_byte(b: u8) -> bool {
    (48 <= b && b <= 57) || (65 <= b && b <= 90) || (97 <= b && b <= 122) || b == 95
}

/// Lower-case hexadecimal digit (as a byte) of a value below 16.
pub open spec fn hex_byte(n: u8) -> u8 {
    if n < 10 {
        (48 + n) as u8
    } else {
        (87 + n) as u8
    }
}

/// A byte that is a lower-case hexadecimal digit.
pub open spec fn is_hex_byte(b: u8) -> bool {
    (48 <= b && b <= 57) || (97 <= b && b <= 102)
}

/// The value of a lower-case hexadecimal digit byte.
pub open spec fn hex_value(b: u8) -> u8 {
    if b <= 57 {
        (b - 48) as u8
    } else {
        (b - 87) as u8
    }
}

/// How one byte is written in a key segment: plain bytes stay, every other
/// byte becomes `%` followed by two lower-case hexadecimal digits.
pub open spec fn escape_byte(b: u8) -> Seq<u8> {
    if is_plain_byte(b) {
        seq![b]
    } else {
        seq![37u8, hex_byte(b / 16), hex_byte(b % 16)]
    }
}

/// Escaping of a byte sequence, byte by byte.
pub open spec fn escape_bytes(bs: Seq<u8>) -> Seq<u8>
    decreases bs.len(),
{
    if bs.len() == 0 {
        Seq::empty()
    } else {
        escape_byte(bs[0]) + escape_bytes(bs.drop_first())
    }
}

/// The escaped form of a text: its UTF-8 bytes, escaped.
pub open spec fn escape_segment(s: Seq<char>) -> Seq<u8> {
    escape_bytes(encode_utf8(s))
}

/// Bytes below 128 read as characters.
pub open spec fn ascii_text(bs: Seq<u8>) -> Seq<char> {
    bs.map_values(|b: u8| b as char)
}

/// `Some(prefix + rest)` when `rest` is present.
pub open spec fn prepend(prefix: Seq<u8>, rest: Option<Seq<u8>>) -> Option<Seq<u8>> {
    match rest {
        Some(r) => Some(prefix + r),
        None => None,
    }
}

/// Reverse of escaping: `%hh` becomes the byte `hh`, every other byte stays.
/// `None` when a `%` is not followed by two lower-case hexadecimal digits.
pub open spec fn unescape_bytes(bs: Seq<u8>) -> Option<Seq<u8>>
    decreases bs.len(),
{
    if bs.len() == 0 {
        Some(Seq::empty())
    } else if bs[0] == 37 {
        if bs.len() >= 3 && is_hex_byte(bs[1]) && is_hex_byte(bs[2]) {
            prepend(
                seq![(hex_value(bs[1]) * 16 + hex_value(bs[2])) as u8],
                unescape_bytes(bs.subrange(3, bs.len() as int)),
            )
        } else {
            None
        }
    } else {
        prepend(seq![bs[0]], unescape_bytes(bs.drop_first()))
    }
}

/// The text that an escaped segment stands for, if the segment is well formed.
pub open spec fn unescape_segment(bs: Seq<u8>) -> Option<Seq<char>> {
    match unescape_bytes(bs) {
        Some(raw) => if valid_utf8(raw) {
            Some(decode_utf8(raw))
        } else {
            None
        },
        None => None,
    }
}

proof fn lemma_hex_byte(n: u8)
    requires
        n < 16,
    ensures
        is_hex_byte(hex_byte(n)),
        hex_value(hex_byte(n)) == n,
        !is_plain_byte(hex_byte(n)) ==> false,
        hex_byte(n) != 47,
        hex_byte(n) < 128,
{
}

/// Escaping distributes over concatenation.
pub proof fn lemma_escape_bytes_concat(a: Seq<u8>, b: Seq<u8>)
    ensures
        escape_bytes(a + b) == escape_bytes(a) + escape_bytes(b),
    decreases a.len(),
{
    if a.len() == 0 {
        assert(a + b =~= b);
    } else {
        lemma_escape_bytes_concat(a.drop_first(), b);
        assert((a + b).drop_first() =~= a.drop_first() + b);
        assert(escape_bytes(a) + escape_bytes(b) =~= escape_byte(a[0]) + (escape_bytes(
            a.drop_first(),
        ) + escape_bytes(b)));
    }
}

/// Escaped text consists of plain bytes, `%` and hexadecimal digits only:
/// all below 128, and never `/`.
pub proof fn lemma_escape_bytes_safe(bs: Seq<u8>)
    ensures
        forall|i: int|
            0 <= i < escape_bytes(bs).len() ==> #[trigger] escape_bytes(bs)[i] < 128
                && escape_bytes(bs)[i] != 47,
    decreases bs.len(),
{
    if bs.len() > 0 {
        lemma_escape_bytes_safe(bs.drop_first());
        let b = bs[0];
        lemma_hex_byte(b / 16);
        lemma_hex_byte(b % 16);
        let e = escape_bytes(bs);
        assert forall|i: int| 0 <= i < e.len() implies #[trigger] e[i] < 128 && e[i] != 47 by {
            if i >= escape_byte(b).len() {
                assert(e[i] == escape_bytes(bs.drop_first())[i - escape_byte(b).len()]);
            }
        }
    }
}

/// Unescaping undoes escaping.
pub proof fn lemma_unescape_escape_bytes(bs: Seq<u8>)
    ensures
        unescape_bytes(escape_bytes(bs)) == Some(bs),
    decreases bs.len(),
{
    if bs.len() > 0 {
        lemma_unescape_escape_bytes(bs.drop_first());
        let b = bs[0];
        let rest = escape_bytes(bs.drop_first());
        let e = escape_bytes(bs);
        lemma_hex_byte(b / 16);
        lemma_hex_byte(b % 16);
        if is_plain_byte(b) {
            assert(e.drop_first() =~= rest);
        } else {
            assert(e.subrange(3, e.len() as int) =~= rest);
            assert((hex_value(hex_byte(b / 16)) * 16 + hex_value(hex_byte(b % 16))) as u8 == b);
        }
        assert(seq![b] + bs.drop_first() =~= bs);
    }
}

/// Reading an escaped segment gives back the text.
pub proof fn lemma_unescape_escape_segment(s: Seq<char>)
    ensures
        unescape_segment(escape_segment(s)) == Some(s),
{
    lemma_unescape_escape_bytes(encode_utf8(s));
}

proof fn lemma_ascii_bytes_roundtrip(bs: Seq<u8>)
    requires
        forall|i: int| 0 <= i < bs.len() ==> #[trigger] bs[i] < 128,
    ensures
        is_ascii_chars(ascii_text(bs)),
        encode_utf8(ascii_text(bs)) == bs,
        ascii_text(bs).len() == bs.len(),
{
    let t = ascii_text(bs);
    assert forall|i: int| 0 <= i < t.len() implies '\0' <= #[trigger] t[i] <= '\u{7f}' by {
        assert(t[i] == bs[i] as char);
        assert((bs[i] as char) as u32 == bs[i] as u32);
    }
    is_ascii_chars_encode_utf8(t);
    assert forall|i: int| 0 <= i < bs.len() implies encode_utf8(t)[i] == bs[i] by {
        assert(t[i] as u8 == encode_utf8(t)[i]);
        assert((bs[i] as char) as u32 == bs[i] as u32);
    }
    assert(encode_utf8(t) =~= bs);
}

// ---------------------------------------------------------------------------
// Executable escaping
// ---------------------------------------------------------------------------

fn hex_digit(n: u8) -> (b: u8)
    requires
        n < 16,
    ensures
        b == hex_byte(n),
{
    if n < 10 {
        48 + n
    } else {
        87 + n
    }
}

/// Escapes a key segment: digits, ASCII letters and `_` stay, every other
/// byte of the UTF-8 text becomes `%` and two lower-case hexadecimal digits.
pub fn escape(key: &str) -> (res: String)
    ensures
        res@ == ascii_text(escape_segment(key@)),
{
    let bytes = key.as_bytes();
    let mut out = String::new();
    let ghost mut done: Seq<u8> = Seq::empty();
    let mut i: usize = 0;
    proof {
        lemma_escape_bytes_safe(bytes@);
    }
    while i < bytes.len()
        invariant
            i <= bytes.len(),
            bytes@ == encode_utf8(key@),
            done == escape_bytes(bytes@.take(i as int)),
            out@ == ascii_text(done),
        decreases bytes.len() - i,
    {
        let b = bytes[i];
        proof {
            lemma_escape_bytes_concat(bytes@.take(i as int), seq![b]);
            assert(bytes@.take(i + 1) =~= bytes@.take(i as int) + seq![b]);
            assert(escape_bytes(seq![b]) =~= escape_byte(b) + escape_bytes(
                seq![b].drop_first(),
            ));
            assert(escape_bytes(seq![b].drop_first()) =~= Seq::<u8>::empty());
        }
        if (48 <= b && b <= 57) || (65 <= b && b <= 90) || (97 <= b && b <= 122) || b == 95 {
            push_char(&mut out, b as char);
            proof {
                done = done + seq![b];
            }
        } else {
            let h = hex_digit(b / 16);
            let l = hex_digit(b % 16);
            push_char(&mut out, '%');
            push_char(&mut out, h as char);
            push_char(&mut out, l as char);
            proof {
                done = done + seq![37u8, h, l];
            }
        }
        i = i + 1;
        assert(out@ =~= ascii_text(done));
    }
    assert(bytes@.take(bytes@.len() as int) =~= bytes@);
    out
}

/// Converts bytes to text when they are valid UTF-8 (`String::from_utf8`).
///
/// Trusted: std's `String::from_utf8` succeeds exactly on valid UTF-8 and
/// then holds the decoded characters.
#[verifier::external_body]
pub(crate) fn utf8_to_string(bytes: Vec<u8>) -> (r: Option<String>)
    ensures
        r.is_some() <==> valid_utf8(bytes@),
        r matches Some(s) ==> s@ == decode_utf8(bytes@),
{
    String::from_utf8(bytes).ok()
}

/// Unescapes the bytes of a key segment; `None` on a malformed `%` escape.
pub fn unescape_raw(seg: &Vec<u8>) -> (r: Option<Vec<u8>>)
    ensures
        r.is_some() <==> unescape_bytes(seg@).is_some(),
        r matches Some(v) ==> Some(v@) == unescape_bytes(seg@),
{
    let mut out: Vec<u8> = Vec::new();
    let mut i: usize = 0;
    assert(seg@.skip(0) =~= seg@);
    assert(prepend(out@, unescape_bytes(seg@)) == unescape_bytes(seg@)) by {
        if let Some(r) = unescape_bytes(seg@) {
            assert(out@ + r =~= r);
        }
    }
    while i < seg.len()
        invariant
            i <= seg.len(),
            unescape_bytes(seg@) == prepend(out@, unescape_bytes(seg@.skip(i as int))),
        decreases seg.len() - i,
    {
        let rest = Ghost(seg@.skip(i as int));
        let b = seg[i];
        if b == 37 {
            if seg.len() - i >= 3 {
                let h = seg[i + 1];
                let l = seg[i + 2];
                if ((48 <= h && h <= 57) || (97 <= h && h <= 102)) && ((48 <= l && l <= 57) || (97
                    <= l && l <= 102)) {
                    let hv: u8 = if h <= 57 {
                        h - 48
                    } else {
                        h - 87
                    };
                    let lv: u8 = if l <= 57 {
                        l - 48
                    } else {
                        l - 87
                    };
                    let v: u8 = hv * 16 + lv;
                    proof {
                        assert(rest@.subrange(3, rest@.len() as int) =~= seg@.skip(i + 3));
                        assert(out@ + (seq![v] + unescape_bytes(seg@.skip(i + 3)).unwrap_or(
                            Seq::empty(),
                        )) =~= out@.push(v) + unescape_bytes(seg@.skip(i + 3)).unwrap_or(
                            Seq::empty(),
                        ));
                    }
                    out.push(v);
                    i = i + 3;
                } else {
                    return None;
                }
            } else {
                return None;
            }
        } else {
            proof {
                assert(rest@.drop_first() =~= seg@.skip(i + 1));
                assert(out@ + (seq![b] + unescape_bytes(seg@.skip(i + 1)).unwrap_or(
                    Seq::empty(),
                )) =~= out@.push(b) + unescape_bytes(seg@.skip(i + 1)).unwrap_or(Seq::empty()));
            }
            out.push(b);
            i = i + 1;
        }
    }
    assert(seg@.skip(i as int) =~= Seq::<u8>::empty());
    assert(out@ + Seq::<u8>::empty() =~= out@);
    Some(out)
}

/// The text of an escaped key segment; `None` when the escapes are malformed
/// or the bytes they give are not UTF-8.
pub fn unescape(seg: &Vec<u8>) -> (r: Option<String>)
    ensures
        r.is_some() <==> unescape_segment(seg@).is_some(),
        r matches Some(s) ==> Some(s@) == unescape_segment(seg@),
{
    match unescape_raw(seg) {
        Some(raw) => utf8_to_string(raw),
        None => None,
    }
}

// ---------------------------------------------------------------------------
// Splitting a key into segments
// ---------------------------------------------------------------------------

/// The segments of `bs` between separator bytes `sep` (there is always at
/// least one segment).
pub open spec fn split_bytes(bs: Seq<u8>, sep: u8) -> Seq<Seq<u8>>
    decreases bs.len(),
{
    if bs.len() == 0 {
        seq![Seq::empty()]
    } else {
        let r = split_bytes(bs.drop_last(), sep);
        if bs.last() == sep {
            r.push(Seq::empty())
        } else {
            r.update(r.len() - 1, r.last().push(bs.last()))
        }
    }
}

proof fn lemma_split_len(bs: Seq<u8>, sep: u8)
    ensures
        split_bytes(bs, sep).len() >= 1,
    decreases bs.len(),
{
    if bs.len() > 0 {
        lemma_split_len(bs.drop_last(), sep);
    }
}

/// Appending bytes without a separator extends the last segment.
proof fn lemma_split_extend(a: Seq<u8>, b: Seq<u8>, sep: u8)
    requires
        forall|i: int| 0 <= i < b.len() ==> #[trigger] b[i] != sep,
    ensures
        split_bytes(a + b, sep) == split_bytes(a, sep).update(
            split_bytes(a, sep).len() - 1,
            split_bytes(a, sep).last() + b,
        ),
    decreases b.len(),
{
    lemma_split_len(a, sep);
    if b.len() == 0 {
        assert(a + b =~= a);
        assert(split_bytes(a, sep).last() + b =~= split_bytes(a, sep).last());
        assert(split_bytes(a, sep).update(
            split_bytes(a, sep).len() - 1,
            split_bytes(a, sep).last(),
        ) =~= split_bytes(a, sep));
    } else {
        lemma_split_extend(a, b.drop_last(), sep);
        assert((a + b).drop_last() =~= a + b.drop_last());
        let r = split_bytes(a, sep);
        let r1 = r.update(r.len() - 1, r.last() + b.drop_last());
        assert((r.last() + b.drop_last()).push(b.last()) =~= r.last() + b);
        assert(r1.update(r1.len() - 1, r1.last().push(b.last())) =~= r.update(
            r.len() - 1,
            r.last() + b,
        ));
    }
}

/// Appending a separator starts a new, empty segment.
proof fn lemma_split_sep(a: Seq<u8>, sep: u8)
    ensures
        split_bytes(a.push(sep), sep) == split_bytes(a, sep).push(Seq::empty()),
{
    assert(a.push(sep).drop_last() =~= a);
}

/// Splits bytes at every separator byte.
pub fn split_segments(bs: &[u8], sep: u8) -> (r: Vec<Vec<u8>>)
    ensures
        r@.len() == split_bytes(bs@, sep).len(),
        forall|i: int| 0 <= i < r@.len() ==> #[trigger] r@[i]@ == split_bytes(bs@, sep)[i],
{
    let mut segs: Vec<Vec<u8>> = Vec::new();
    let mut cur: Vec<u8> = Vec::new();
    let mut i: usize = 0;
    while i < bs.len()
        invariant
            i <= bs.len(),
            segs@.len() + 1 == split_bytes(bs@.take(i as int), sep).len(),
            forall|k: int|
                0 <= k < segs@.len() ==> #[trigger] segs@[k]@ == split_bytes(
                    bs@.take(i as int),
                    sep,
                )[k],
            cur@ == split_bytes(bs@.take(i as int), sep).last(),
        decreases bs.len() - i,
    {
        let b = bs[i];
        proof {
            lemma_split_len(bs@.take(i as int), sep);
            assert(bs@.take(i + 1).drop_last() =~= bs@.take(i as int));
        }
        if b == sep {
            let done = cur;
            segs.push(done);
            cur = Vec::new();
        } else {
            cur.push(b);
        }
        i = i + 1;
    }
    assert(bs@.take(bs@.len() as int) =~= bs@);
    segs.push(cur);
    segs
}

// ---------------------------------------------------------------------------
// Tenants and tenant-scoped identifiers
// ---------------------------------------------------------------------------

/// The tenant that owns a meta-service object; its name is never empty.
#[derive(Clone, Debug, PartialEq, Eq)]
pub struct Tenant {
    tenant: String,
}

/// The error of building a tenant from an empty name.
#[derive(Clone, Debug, PartialEq, Eq)]
pub struct TenantIsEmpty {
    pub context: String,
}

impl Tenant {
    pub closed spec fn name_view(&self) -> Seq<char> {
        self.tenant@
    }

    /// The tenant named by a literal, which must not be empty.
    pub fn new_literal(tenant: &str) -> (t: Tenant)
        requires
            tenant@.len() > 0,
        ensures
            t.name_view() == tenant@,
    {
        Tenant { tenant: tenant.to_owned() }
    }

    /// The tenant with this name, or an error when the name is empty.
    pub fn new_or_err(tenant: String, context: &str) -> (r: Result<Tenant, TenantIsEmpty>)
        ensures
            r is Ok <==> tenant@.len() > 0,
            r matches Ok(t) ==> t.name_view() == tenant@,
            r matches Err(e) ==> e.context@ == context@,
    {
        if tenant.as_str().is_empty() {
            Err(TenantIsEmpty { context: context.to_owned() })
        } else {
            Ok(Tenant { tenant })
        }
    }

    /// The tenant's name.
    pub fn tenant_name(&self) -> (s: &str)
        ensures
            s@ == self.name_view(),
    {
        self.tenant.as_str()
    }
}

/// A key prefix that reads back unambiguously: ASCII, non-empty, without `/`.
pub open spec fn is_key_prefix(p: Seq<char>) -> bool {
    &&& p.len() > 0
    &&& is_ascii_chars(p)
    &&& !p.contains('/')
}

/// A kind of object kept under a tenant in the meta-service.
pub trait TenantResource: Sized {
    /// The key prefix of this kind of object.
    spec fn spec_prefix() -> Seq<char>;

    /// The name of the identifier type, used in messages.
    spec fn spec_ident_type() -> Seq<char>;

    fn prefix() -> (p: &'static str)
        ensures
            p@ == Self::spec_prefix(),
            is_key_prefix(p@),
    ;

    fn ident_type() -> (t: &'static str)
        ensures
            t@ == Self::spec_ident_type(),
    ;

    /// Whether keys of this kind hold the tenant's name.
    spec fn spec_has_tenant() -> bool;

    /// Whether keys of this kind hold the tenant's name.
    fn has_tenant() -> (r: bool)
        ensures
            r == Self::spec_has_tenant(),
    ;

    fn resource() -> Self;
}

/// Why a key could not be read as an identifier.
#[derive(Clone, Debug, PartialEq, Eq)]
pub enum KeyError {
    /// The key does not consist of a prefix, a tenant and a name.
    WrongNumberOfSegments { expect: usize, got: usize },
    /// The first segment is not the prefix of this kind of object.
    WrongPrefix,
    /// A segment holds a malformed `%` escape, or its bytes are not UTF-8.
    InvalidSegment { index: usize },
    /// The tenant segment is empty.
    EmptyTenant,
}

/// The error of creating an object whose name is already taken.
#[derive(Debug, PartialEq, Eq)]
pub struct ExistError<R> {
    name: String,
    ctx: String,
    _p: PhantomData<R>,
}

/// The error of using an object that does not exist.
#[derive(Debug, PartialEq, Eq)]
pub struct UnknownError<R> {
    name: String,
    ctx: String,
    _p: PhantomData<R>,
}

/// The message of an `ExistError`: `<type> '<name>' already exists: <ctx>`.
pub open spec fn exist_message(typ: Seq<char>, name: Seq<char>, ctx: Seq<char>) -> Seq<char> {
    typ + " '"@ + name + "' already exists: "@ + ctx
}

/// The message of an `UnknownError`: `Unknown <type> '<name>': <ctx>`.
pub open spec fn unknown_message(typ: Seq<char>, name: Seq<char>, ctx: Seq<char>) -> Seq<char> {
    "Unknown "@ + typ + " '"@ + name + "': "@ + ctx
}

impl<R: TenantResource> ExistError<R> {
    pub closed spec fn name_view(&self) -> Seq<char> {
        self.name@
    }

    pub closed spec fn ctx_view(&self) -> Seq<char> {
        self.ctx@
    }

    /// The error for `name`, raised while doing `ctx`.
    pub fn new(name: &str, ctx: &str) -> (e: Self)
        ensures
            e.name_view() == name@,
            e.ctx_view() == ctx@,
    {
        ExistError { name: name.to_owned(), ctx: ctx.to_owned(), _p: PhantomData }
    }

    pub open spec fn message_view(&self) -> Seq<char> {
        exist_message(R::spec_ident_type(), self.name_view(), self.ctx_view())
    }

    /// The message of the error.
    pub fn to_string(&self) -> (m: String)
        ensures
            m@ == self.message_view(),
    {
        proof {
            reveal_strlit(" '");
            reveal_strlit("' already exists: ");
        }
        let mut out = chars_of(R::ident_type());
        crate::text::extend_str(&mut out, " '");
        crate::text::extend_str(&mut out, self.name.as_str());
        crate::text::extend_str(&mut out, "' already exists: ");
        crate::text::extend_str(&mut out, self.ctx.as_str());
        crate::text::string_of(&out)
    }
}

impl<R: TenantResource> UnknownError<R> {
    pub closed spec fn name_view(&self) -> Seq<char> {
        self.name@
    }

    pub closed spec fn ctx_view(&self) -> Seq<char> {
        self.ctx@
    }

    /// The error for `name`, raised while doing `ctx`.
    pub fn new(name: &str, ctx: &str) -> (e: Self)
        ensures
            e.name_view() == name@,
            e.ctx_view() == ctx@,
    {
        UnknownError { name: name.to_owned(), ctx: ctx.to_owned(), _p: PhantomData }
    }

    pub open spec fn message_view(&self) -> Seq<char> {
        unknown_message(R::spec_ident_type(), self.name_view(), self.ctx_view())
    }

    /// The message of the error.
    pub fn to_string(&self) -> (m: String)
        ensures
            m@ == self.message_view(),
    {
        proof {
            reveal_strlit("Unknown ");
            reveal_strlit(" '");
            reveal_strlit("': ");
        }
        let mut out = chars_of("Unknown ");
        crate::text::extend_str(&mut out, R::ident_type());
        crate::text::extend_str(&mut out, " '");
        crate::text::extend_str(&mut out, self.name.as_str());
        crate::text::extend_str(&mut out, "': ");
        crate::text::extend_str(&mut out, self.ctx.as_str());
        crate::text::string_of(&out)
    }
}

/// An object name scoped by a tenant, for the kind of object `R`.
#[derive(Clone, Debug, PartialEq, Eq)]
pub struct TIdent<R> {
    tenant: Tenant,
    name: String,
    resource: R,
}

/// The key of an identifier: the prefix, then the escaped tenant name and
/// the escaped object name, separated by `/`.
pub open spec fn key_text(prefix: Seq<char>, tenant: Seq<char>, name: Seq<char>) -> Seq<char> {
    prefix + seq!['/'] + ascii_text(escape_segment(tenant)) + seq!['/'] + ascii_text(
        escape_segment(name),
    )
}

/// What reading a key gives: the tenant and the name, or the first error.
pub open spec fn parse_key(key: Seq<char>, prefix: Seq<char>) -> Result<
    (Seq<char>, Seq<char>),
    KeyError,
> {
    let segs = split_bytes(encode_utf8(key), 47);
    if segs.len() != 3 {
        Err(KeyError::WrongNumberOfSegments { expect: 3, got: segs.len() as usize })
    } else if segs[0] != encode_utf8(prefix) {
        Err(KeyError::WrongPrefix)
    } else {
        match unescape_segment(segs[1]) {
            None => Err(KeyError::InvalidSegment { index: 1 }),
            Some(t) => match unescape_segment(segs[2]) {
                None => Err(KeyError::InvalidSegment { index: 2 }),
                Some(n) => if t.len() == 0 {
                    Err(KeyError::EmptyTenant)
                } else {
                    Ok((t, n))
                },
            },
        }
    }
}

fn bytes_eq(a: &[u8], b: &[u8]) -> (r: bool)
    ensures
        r <==> a@ == b@,
{
    if a.len() != b.len() {
        return false;
    }
    let mut i: usize = 0;
    while i < a.len()
        invariant
            i <= a.len(),
            a.len() == b.len(),
            forall|k: int| 0 <= k < i ==> a@[k] == b@[k],
        decreases a.len() - i,
    {
        if a[i] != b[i] {
            return false;
        }
        i = i + 1;
    }
    assert(a@ =~= b@);
    true
}

impl<R: TenantResource> TIdent<R> {
    pub closed spec fn tenant_view(&self) -> Seq<char> {
        self.tenant.name_view()
    }

    pub closed spec fn name_view(&self) -> Seq<char> {
        self.name@
    }

    /// The identifier of `name` under `tenant`.
    pub fn new(tenant: Tenant, name: &str) -> (id: Self)
        ensures
            id.tenant_view() == tenant.name_view(),
            id.name_view() == name@,
    {
        TIdent { tenant, name: name.to_owned(), resource: R::resource() }
    }

    pub fn tenant(&self) -> (t: &Tenant)
        ensures
            t.name_view() == self.tenant_view(),
    {
        &self.tenant
    }

    pub fn name(&self) -> (n: &str)
        ensures
            n@ == self.name_view(),
    {
        self.name.as_str()
    }

    /// The meta-service key of this identifier.
    pub fn to_string_key(&self) -> (k: String)
        ensures
            k@ == key_text(R::spec_prefix(), self.tenant_view(), self.name_view()),
    {
        let mut out = chars_of(R::prefix());
        out.push('/');
        let t = escape(self.tenant.tenant_name());
        crate::text::extend_str(&mut out, t.as_str());
        out.push('/');
        let n = escape(self.name.as_str());
        crate::text::extend_str(&mut out, n.as_str());
        assert(out@ =~= key_text(R::spec_prefix(), self.tenant_view(), self.name_view()));
        crate::text::string_of(&out)
    }

    /// Reads an identifier back from its meta-service key.
    pub fn from_str_key(key: &str) -> (r: Result<Self, KeyError>)
        ensures
            match parse_key(key@, R::spec_prefix()) {
                Ok((t, n)) => r matches Ok(id) && id.tenant_view() == t && id.name_view() == n,
                Err(e) => r == Err::<Self, KeyError>(e),
            },
    {
        let segs = split_segments(key.as_bytes(), 47);
        if segs.len() != 3 {
            return Err(KeyError::WrongNumberOfSegments { expect: 3, got: segs.len() });
        }
        let p = R::prefix();
        if !bytes_eq(segs[0].as_slice(), p.as_bytes()) {
            return Err(KeyError::WrongPrefix);
        }
        let tenant = match unescape(&segs[1]) {
            Some(t) => t,
            None => {
                return Err(KeyError::InvalidSegment { index: 1 });
            },
        };
        let name = match unescape(&segs[2]) {
            Some(n) => n,
            None => {
                return Err(KeyError::InvalidSegment { index: 2 });
            },
        };
        if tenant.as_str().is_empty() {
            return Err(KeyError::EmptyTenant);
        }
        Ok(TIdent { tenant: Tenant { tenant }, name, resource: R::resource() })
    }
}

proof fn lemma_prefix_bytes(prefix: Seq<char>)
    requires
        is_key_prefix(prefix),
    ensures
        forall|i: int|
            0 <= i < encode_utf8(prefix).len() ==> #[trigger] encode_utf8(prefix)[i] != 47
                && encode_utf8(prefix)[i] < 128,
        ascii_text(encode_utf8(prefix)) == prefix,
{
    let pb = encode_utf8(prefix);
    is_ascii_chars_encode_utf8(prefix);
    assert forall|i: int| 0 <= i < pb.len() implies #[trigger] pb[i] != 47 && pb[i] < 128 by {
        assert(prefix[i] as u8 == pb[i]);
        assert('\0' <= prefix[i] <= '\u{7f}');
        if pb[i] == 47 {
            assert(prefix[i] as u32 == 47);
            assert(prefix.contains(prefix[i]));
        }
    }
    assert forall|i: int| 0 <= i < prefix.len() implies ascii_text(pb)[i] == prefix[i] by {
        assert(prefix[i] as u8 == pb[i]);
        assert('\0' <= prefix[i] <= '\u{7f}');
    }
    assert(ascii_text(pb) =~= prefix);
}

/// The bytes of a key: prefix, separator, escaped tenant, separator,
/// escaped name.
pub open spec fn key_bytes(prefix: Seq<char>, tenant: Seq<char>, name: Seq<char>) -> Seq<u8> {
    encode_utf8(prefix) + seq![47u8] + escape_segment(tenant) + seq![47u8] + escape_segment(name)
}

proof fn lemma_key_bytes(prefix: Seq<char>, tenant: Seq<char>, name: Seq<char>)
    requires
        is_key_prefix(prefix),
    ensures
        encode_utf8(key_text(prefix, tenant, name)) == key_bytes(prefix, tenant, name),
{
    let pb = encode_utf8(prefix);
    let et = escape_segment(tenant);
    let en = escape_segment(name);
    lemma_prefix_bytes(prefix);
    lemma_escape_bytes_safe(encode_utf8(tenant));
    lemma_escape_bytes_safe(encode_utf8(name));
    let kb = key_bytes(prefix, tenant, name);
    assert forall|i: int| 0 <= i < kb.len() implies #[trigger] kb[i] < 128 by {
        if i < pb.len() {
            assert(kb[i] == pb[i]);
        } else if i == pb.len() {
        } else if i < pb.len() + 1 + et.len() {
            assert(kb[i] == et[i - pb.len() - 1]);
        } else if i == pb.len() + 1 + et.len() {
        } else {
            assert(kb[i] == en[i - pb.len() - 2 - et.len()]);
        }
    }
    lemma_ascii_bytes_roundtrip(kb);
    assert(ascii_text(kb) =~= key_text(prefix, tenant, name));
}

proof fn lemma_key_split(prefix: Seq<char>, tenant: Seq<char>, name: Seq<char>)
    requires
        is_key_prefix(prefix),
    ensures
        split_bytes(key_bytes(prefix, tenant, name), 47) == seq![
            encode_utf8(prefix),
            escape_segment(tenant),
            escape_segment(name),
        ],
{
    let pb = encode_utf8(prefix);
    let et = escape_segment(tenant);
    let en = escape_segment(name);
    lemma_prefix_bytes(prefix);
    lemma_escape_bytes_safe(encode_utf8(tenant));
    lemma_escape_bytes_safe(encode_utf8(name));
    let empty = Seq::<u8>::empty();
    lemma_split_extend(empty, pb, 47);
    assert(empty + pb =~= pb);
    assert(split_bytes(pb, 47) =~= seq![pb]);
    lemma_split_sep(pb, 47);
    let a1 = pb.push(47);
    lemma_split_extend(a1, et, 47);
    let a2 = a1 + et;
    assert(split_bytes(a2, 47) =~= seq![pb, et]);
    lemma_split_sep(a2, 47);
    let a3 = a2.push(47);
    lemma_split_extend(a3, en, 47);
    assert(a3 + en =~= key_bytes(prefix, tenant, name));
    assert(split_bytes(a3 + en, 47) =~= seq![pb, et, en]);
}

/// The key of an identifier reads back as the same tenant and name: for
/// every kind of object, every non-empty tenant name and every object name.
pub proof fn lemma_key_roundtrip(prefix: Seq<char>, tenant: Seq<char>, name: Seq<char>)
    requires
        is_key_prefix(prefix),
        tenant.len() > 0,
    ensures
        parse_key(key_text(prefix, tenant, name), prefix) == Ok::<
            (Seq<char>, Seq<char>),
            KeyError,
        >((tenant, name)),
{
    lemma_key_bytes(prefix, tenant, name);
    lemma_key_split(prefix, tenant, name);
    lemma_unescape_escape_segment(tenant);
    lemma_unescape_escape_segment(name);
}

/// The key of an identifier reads back as an equal identifier.
pub proof fn lemma_ident_roundtrip<R: TenantResource>(id: TIdent<R>)
    requires
        is_key_prefix(R::spec_prefix()),
        id.tenant_view().len() > 0,
    ensures
        parse_key(key_text(R::spec_prefix(), id.tenant_view(), id.name_view()), R::spec_prefix())
            == Ok::<(Seq<char>, Seq<char>), KeyError>((id.tenant_view(), id.name_view())),
{
    lemma_key_roundtrip(R::spec_prefix(), id.tenant_view(), id.name_view());
}

} // verus!
