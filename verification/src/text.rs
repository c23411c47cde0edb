//! Text helpers shared by the configuration checks, the commitment parser and
//! the abbreviations used in report lines.

use vstd::prelude::*;
use vstd::utf8::*;

verus! {

broadcast use vstd::utf8::encode_utf8_valid_utf8;

/// The characters of each string.
pub open spec fn strings_view(v: Seq<String>) -> Seq<Seq<char>> {
    v.map_values(|s: String| s@)
}

/// The characters of an optional string.
pub open spec fn option_view(o: Option<String>) -> Option<Seq<char>> {
    match o {
        Some(s) => Some(s@),
        None => None,
    }
}

/// The characters that carry the Unicode `White_Space` property, which is
/// what `char::is_whitespace` (and therefore `str::trim`) tests for.
pub open spec fn is_white_space(c: char) -> bool {
    let u = c as u32;
    ||| (0x09 <= u && u <= 0x0d)
    ||| u == 0x20
    ||| u == 0x85
    ||| u == 0xa0
    ||| u == 0x1680
    ||| (0x2000 <= u && u <= 0x200a)
    ||| u == 0x2028
    ||| u == 0x2029
    ||| u == 0x202f
    ||| u == 0x205f
    ||| u == 0x3000
}

/// A string is blank when every character in it is white space.
pub open spec fn spec_is_blank(s: Seq<char>) -> bool {
    forall|i: int| 0 <= i < s.len() ==> is_white_space(#[trigger] s[i])
}

/// `s` with its leading white space removed.
pub open spec fn spec_trim_start(s: Seq<char>) -> Seq<char>
    decreases s.len(),
{
    if s.len() > 0 && is_white_space(s[0]) {
        spec_trim_start(s.drop_first())
    } else {
        s
    }
}

/// `s` with its trailing white space removed.
pub open spec fn spec_trim_end(s: Seq<char>) -> Seq<char>
    decreases s.len(),
{
    if s.len() > 0 && is_white_space(s.last()) {
        spec_trim_end(s.drop_last())
    } else {
        s
    }
}

/// `s` with leading and trailing white space removed, as `str::trim` does.
pub open spec fn spec_trim(s: Seq<char>) -> Seq<char> {
    spec_trim_end(spec_trim_start(s))
}

/// The ASCII lower-case form of a character: `A`..`Z` map to `a`..`z`,
/// every other character is left alone.
pub open spec fn ascii_lower(c: char) -> char {
    if 'A' <= c && c <= 'Z' {
        ((c as u32) + 32) as char
    } else {
        c
    }
}

/// The ASCII lower-case form of a whole string.
pub open spec fn spec_ascii_lowercase(s: Seq<char>) -> Seq<char> {
    s.map_values(|c: char| ascii_lower(c))
}

/// The UTF-8 bytes of `...`.
pub open spec fn ellipsis_bytes() -> Seq<u8> {
    seq![46u8, 46u8, 46u8]
}

/// The byte string that an abbreviation produces: the bytes themselves when
/// there are at most `limit` of them, else the first `head` bytes, `...` and
/// the last `tail` bytes.
pub open spec fn abbreviated_bytes(b: Seq<u8>, limit: nat, head: nat, tail: nat) -> Seq<u8> {
    if b.len() <= limit {
        b
    } else {
        b.subrange(0, head as int) + ellipsis_bytes() + b.subrange(
            b.len() - tail,
            b.len() as int,
        )
    }
}

/// Byte slicing at `head` and at `len - tail` needs both to fall on character
/// boundaries whenever the string is long enough to be cut.
pub open spec fn can_abbreviate(b: Seq<u8>, limit: nat, head: nat, tail: nat) -> bool {
    b.len() > limit ==> {
        &&& is_char_boundary(b, head as int)
        &&& is_char_boundary(b, b.len() - tail)
    }
}

/// The characters whose UTF-8 bytes are the abbreviation of `s`.
pub open spec fn spec_abbreviate(s: Seq<char>, limit: nat, head: nat, tail: nat) -> Seq<char> {
    decode_utf8(abbreviated_bytes(encode_utf8(s), limit, head, tail))
}

/// The UTF-8 encoding of a concatenation is the concatenation of the encodings.
pub proof fn lemma_encode_utf8_concat(a: Seq<char>, b: Seq<char>)
    ensures
        encode_utf8(a + b) == encode_utf8(a) + encode_utf8(b),
    decreases a.len(),
{
    if a.len() == 0 {
        assert(a + b =~= b);
        assert(encode_utf8(a) + encode_utf8(b) =~= encode_utf8(b));
    } else {
        lemma_encode_utf8_concat(a.drop_first(), b);
        assert((a + b).drop_first() =~= a.drop_first() + b);
        assert((a + b)[0] == a[0]);
        assert(encode_utf8(a + b) =~= encode_scalar(a[0] as u32) + encode_utf8(a.drop_first() + b));
        assert(encode_utf8(a) + encode_utf8(b) =~= encode_scalar(a[0] as u32) + (encode_utf8(
            a.drop_first(),
        ) + encode_utf8(b)));
    }
}

/// `...` is encoded as three `.` bytes.
pub proof fn lemma_ellipsis_bytes()
    ensures
        "..."@ == seq!['.', '.', '.'],
        encode_utf8("..."@) == ellipsis_bytes(),
{
    reveal_strlit("...");
    let s = seq!['.', '.', '.'];
    assert("..."@ =~= s);
    let u: u32 = 46;
    assert(leading_byte_width_1(u) == 46u8) by (bit_vector)
        requires
            u == 46u32,
    ;
    assert('.' as u32 == 46);
    reveal_with_fuel(encode_utf8, 4);
    assert(s.drop_first() =~= seq!['.', '.']);
    assert(s.drop_first().drop_first() =~= seq!['.']);
    assert(s.drop_first().drop_first().drop_first() =~= Seq::<char>::empty());
    assert(encode_utf8(s) =~= ellipsis_bytes());
}

/// A value of at most `limit` bytes is kept whole; a longer one becomes its
/// first `head` bytes, three `.` bytes and its last `tail` bytes, so
/// `head + 3 + tail` bytes in all.
pub proof fn lemma_abbreviation_shape(b: Seq<u8>, limit: nat, head: nat, tail: nat)
    requires
        head <= limit,
        tail <= limit,
    ensures
        b.len() <= limit ==> abbreviated_bytes(b, limit, head, tail) == b,
        b.len() > limit ==> {
            let r = abbreviated_bytes(b, limit, head, tail);
            &&& r.len() == head + 3 + tail
            &&& forall|i: int| 0 <= i < head ==> #[trigger] r[i] == b[i]
            &&& r[head as int] == 46u8 && r[head + 1int] == 46u8 && r[head + 2int] == 46u8
            &&& forall|i: int| 0 <= i < tail ==> #[trigger] r[head + 3 + i] == b[b.len() - tail + i]
        },
{
}

/// Abbreviating an abbreviation changes nothing, provided the marker and the
/// kept ends are longer than the limit (so that the result is cut again at
/// the same places).
pub proof fn lemma_abbreviate_idempotent(s: Seq<char>, limit: nat, head: nat, tail: nat)
    requires
        head <= limit,
        tail <= limit,
        limit < head + 3 + tail,
        can_abbreviate(encode_utf8(s), limit, head, tail),
    ensures
        can_abbreviate(encode_utf8(spec_abbreviate(s, limit, head, tail)), limit, head, tail),
        spec_abbreviate(spec_abbreviate(s, limit, head, tail), limit, head, tail) == spec_abbreviate(
            s,
            limit,
            head,
            tail,
        ),
{
    let b = encode_utf8(s);
    encode_utf8_decode_utf8(s);
    if b.len() <= limit {
        assert(spec_abbreviate(s, limit, head, tail) == s);
    } else {
        let n = b.len() as int;
        let first = b.subrange(0, head as int);
        let last = b.subrange(n - tail, n);
        let r = first + ellipsis_bytes() + last;
        assert(abbreviated_bytes(b, limit, head, tail) == r);
        valid_utf8_split(b, head as int);
        valid_utf8_split(b, n - tail);
        lemma_ellipsis_bytes();
        encode_utf8_valid_utf8("..."@);
        valid_utf8_concat(first, ellipsis_bytes());
        valid_utf8_concat(first + ellipsis_bytes(), last);
        decode_utf8_encode_utf8(r);
        let rs = spec_abbreviate(s, limit, head, tail);
        assert(encode_utf8(rs) == r);
        assert(r.len() == head + 3 + tail);
        assert(r[head as int] == 46u8);
        is_char_boundary_iff_not_is_continuation_byte(r, head as int);
        let k = r.len() - tail;
        if tail == 0 {
            is_char_boundary_start_end_of_seq(r);
            assert(k == r.len());
        } else {
            assert(r[k] == b[n - tail]);
            is_char_boundary_iff_not_is_continuation_byte(b, n - tail);
            is_char_boundary_iff_not_is_continuation_byte(r, k);
        }
        assert(can_abbreviate(r, limit, head, tail));
        assert(r.subrange(0, head as int) =~= first);
        assert(r.subrange(k, r.len() as int) =~= last);
        assert(abbreviated_bytes(r, limit, head, tail) =~= r);
    }
}

/// An ASCII string can be cut at any byte, so it can always be abbreviated.
pub proof fn lemma_ascii_can_abbreviate(s: Seq<char>, limit: nat, head: nat, tail: nat)
    requires
        is_ascii_chars(s),
        head <= limit,
        tail <= limit,
    ensures
        can_abbreviate(encode_utf8(s), limit, head, tail),
        encode_utf8(s).len() == s.len(),
{
    is_ascii_chars_encode_utf8(s);
    let b = encode_utf8(s);
    assert(b.len() == s.len());
    if b.len() > limit {
        assert(!is_continuation_byte(b[head as int]));
        is_char_boundary_iff_not_is_continuation_byte(b, head as int);
        let k = b.len() - tail;
        if tail == 0 {
            is_char_boundary_start_end_of_seq(b);
        } else {
            assert(!is_continuation_byte(b[k]));
            is_char_boundary_iff_not_is_continuation_byte(b, k);
        }
    }
}

/// Dropping the leading white space of `s` is the same as first dropping a
/// prefix made of white space only.
proof fn lemma_trim_start_skip(s: Seq<char>, i: int)
    requires
        0 <= i <= s.len(),
        forall|j: int| 0 <= j < i ==> is_white_space(#[trigger] s[j]),
    ensures
        spec_trim_start(s) == spec_trim_start(s.subrange(i, s.len() as int)),
    decreases i,
{
    if i > 0 {
        assert(is_white_space(s[0]));
        lemma_trim_start_skip(s.drop_first(), i - 1);
        assert(s.drop_first().subrange(i - 1, s.drop_first().len() as int) =~= s.subrange(
            i,
            s.len() as int,
        ));
    } else {
        assert(s.subrange(0, s.len() as int) =~= s);
    }
}

/// Dropping the trailing white space of `s` is the same as first dropping a
/// suffix made of white space only.
proof fn lemma_trim_end_skip(s: Seq<char>, k: int)
    requires
        0 <= k <= s.len(),
        forall|j: int| k <= j < s.len() ==> is_white_space(#[trigger] s[j]),
    ensures
        spec_trim_end(s) == spec_trim_end(s.subrange(0, k)),
    decreases s.len() - k,
{
    if k < s.len() {
        assert(is_white_space(s.last()));
        lemma_trim_end_skip(s.drop_last(), k);
        assert(s.drop_last().subrange(0, k) =~= s.subrange(0, k));
    } else {
        assert(s.subrange(0, k) =~= s);
    }
}

/// A string is blank exactly when trimming it leaves nothing.
pub proof fn lemma_blank_iff_trim_empty(s: Seq<char>)
    ensures
        spec_is_blank(s) <==> spec_trim(s).len() == 0,
    decreases s.len(),
{
    if s.len() > 0 {
        if is_white_space(s[0]) {
            lemma_blank_iff_trim_empty(s.drop_first());
            if spec_is_blank(s.drop_first()) {
                assert forall|i: int| 0 <= i < s.len() implies is_white_space(#[trigger] s[i]) by {
                    if i > 0 {
                        assert(s[i] == s.drop_first()[i - 1]);
                    }
                }
            } else {
                let k = choose|k: int|
                    0 <= k < s.drop_first().len() && !is_white_space(#[trigger] s.drop_first()[k]);
                assert(s[k + 1] == s.drop_first()[k]);
            }
        } else {
            assert(!spec_is_blank(s));
            assert(spec_trim_start(s) == s);
            lemma_trim_end_keeps_first(s);
        }
    } else {
        assert(spec_trim_start(s) == s);
    }
}

/// Trimming the end of a string that starts with a non-blank character keeps
/// that character.
proof fn lemma_trim_end_keeps_first(s: Seq<char>)
    requires
        s.len() > 0,
        !is_white_space(s[0]),
    ensures
        spec_trim_end(s).len() > 0,
    decreases s.len(),
{
    if is_white_space(s.last()) {
        assert(s.len() > 1);
        lemma_trim_end_keeps_first(s.drop_last());
    }
}

/// `s` has no white space at either end.
pub open spec fn is_trimmed(s: Seq<char>) -> bool {
    s.len() > 0 ==> !is_white_space(s[0]) && !is_white_space(s.last())
}

/// Trimming the end of `s` keeps a prefix of it.
proof fn lemma_trim_end_is_prefix(s: Seq<char>)
    ensures
        spec_trim_end(s).len() <= s.len(),
        forall|i: int| 0 <= i < spec_trim_end(s).len() ==> #[trigger] spec_trim_end(s)[i] == s[i],
        spec_trim_end(s).len() > 0 ==> !is_white_space(spec_trim_end(s).last()),
    decreases s.len(),
{
    if s.len() > 0 && is_white_space(s.last()) {
        lemma_trim_end_is_prefix(s.drop_last());
    }
}

/// Trimming the start of `s` leaves nothing or a non-blank first character.
proof fn lemma_trim_start_first(s: Seq<char>)
    ensures
        spec_trim_start(s).len() > 0 ==> !is_white_space(spec_trim_start(s)[0]),
    decreases s.len(),
{
    if s.len() > 0 && is_white_space(s[0]) {
        lemma_trim_start_first(s.drop_first());
    }
}

/// What trimming leaves has no white space at either end.
pub proof fn lemma_trim_is_trimmed(s: Seq<char>)
    ensures
        is_trimmed(spec_trim(s)),
{
    let x = spec_trim_start(s);
    lemma_trim_start_first(s);
    lemma_trim_end_is_prefix(x);
}

/// A string with no white space at either end is its own trim.
pub proof fn lemma_trimmed_is_fixed(s: Seq<char>)
    requires
        is_trimmed(s),
    ensures
        spec_trim(s) == s,
{
    assert(spec_trim_start(s) == s);
}

/// Trimming twice is trimming once.
pub proof fn lemma_trim_idempotent(s: Seq<char>)
    ensures
        spec_trim(spec_trim(s)) == spec_trim(s),
{
    lemma_trim_is_trimmed(s);
    lemma_trimmed_is_fixed(spec_trim(s));
}

/// Lower-casing keeps which characters are white space, so it keeps a
/// trimmed string trimmed; and lower-casing twice is lower-casing once.
pub proof fn lemma_lowercase_keeps_trimmed(s: Seq<char>)
    ensures
        is_trimmed(s) ==> is_trimmed(spec_ascii_lowercase(s)),
        spec_ascii_lowercase(spec_ascii_lowercase(s)) == spec_ascii_lowercase(s),
{
    let l = spec_ascii_lowercase(s);
    assert forall|i: int| 0 <= i < s.len() implies is_white_space(#[trigger] l[i]) == is_white_space(
        s[i],
    ) by {
        let c = s[i];
        if 'A' <= c && c <= 'Z' {
            assert(!is_white_space(c));
            assert(l[i] as u32 == (c as u32) + 32);
        }
    }
    assert forall|i: int| 0 <= i < s.len() implies #[trigger] spec_ascii_lowercase(l)[i] == l[i] by {
        let c = s[i];
        if 'A' <= c && c <= 'Z' {
            assert(l[i] as u32 == (c as u32) + 32);
        }
    }
    assert(spec_ascii_lowercase(l) =~= l);
}

/// Whether `s.trim().is_empty()`.
pub fn is_blank(s: &str) -> (r: bool)
    ensures
        r == spec_is_blank(s@),
        r == (spec_trim(s@).len() == 0),
{
    proof {
        lemma_blank_iff_trim_empty(s@);
    }
    let n = s.unicode_len();
    let mut i: usize = 0;
    while i < n
        invariant
            n == s@.len(),
            i <= n,
            forall|j: int| 0 <= j < i ==> is_white_space(#[trigger] s@[j]),
        decreases n - i,
    {
        if !char_is_white_space(s.get_char(i)) {
            assert(!is_white_space(s@[i as int]));
            proof {
                lemma_blank_iff_trim_empty(s@);
            }
            return false;
        }
        i = i + 1;
    }
    true
}

/// Executable white-space test for one character (`char::is_whitespace`).
pub fn char_is_white_space(c: char) -> (r: bool)
    ensures
        r == is_white_space(c),
{
    let u = c as u32;
    (0x09 <= u && u <= 0x0d) || u == 0x20 || u == 0x85 || u == 0xa0 || u == 0x1680 || (0x2000
        <= u && u <= 0x200a) || u == 0x2028 || u == 0x2029 || u == 0x202f || u == 0x205f || u
        == 0x3000
}

/// `s.trim()`: the slice of `s` without leading and trailing white space.
pub fn trim(s: &str) -> (r: &str)
    ensures
        r@ == spec_trim(s@),
{
    let n = s.unicode_len();
    let mut start: usize = 0;
    while start < n && char_is_white_space(s.get_char(start))
        invariant
            n == s@.len(),
            start <= n,
            forall|j: int| 0 <= j < start ==> is_white_space(#[trigger] s@[j]),
        decreases n - start,
    {
        start = start + 1;
    }
    let ghost rest = s@.subrange(start as int, n as int);
    proof {
        lemma_trim_start_skip(s@, start as int);
        if start < n {
            assert(!is_white_space(rest[0]));
        }
        assert(spec_trim_start(rest) == rest);
    }
    let mut end: usize = n;
    while end > start && char_is_white_space(s.get_char(end - 1))
        invariant
            n == s@.len(),
            start <= end <= n,
            rest == s@.subrange(start as int, n as int),
            forall|j: int| end <= j < n ==> is_white_space(#[trigger] s@[j]),
        decreases end,
    {
        end = end - 1;
    }
    proof {
        assert forall|j: int| (end - start) <= j < rest.len() implies is_white_space(
            #[trigger] rest[j],
        ) by {
            assert(rest[j] == s@[j + start]);
        }
        lemma_trim_end_skip(rest, (end - start) as int);
        let kept = rest.subrange(0, (end - start) as int);
        assert(kept =~= s@.subrange(start as int, end as int));
        if end > start {
            assert(kept.last() == s@[end - 1]);
        }
        assert(spec_trim_end(kept) == kept);
    }
    s.substring_char(start, end)
}

/// Whether `s` begins with `prefix` (`str::starts_with`).
pub fn starts_with(s: &str, prefix: &str) -> (r: bool)
    ensures
        r == (prefix@.len() <= s@.len() && s@.subrange(0, prefix@.len() as int) == prefix@),
{
    let n = prefix.unicode_len();
    let m = s.unicode_len();
    if n > m {
        return false;
    }
    let mut i: usize = 0;
    while i < n
        invariant
            n == prefix@.len(),
            m == s@.len(),
            n <= m,
            i <= n,
            forall|j: int| 0 <= j < i ==> #[trigger] s@[j] == prefix@[j],
        decreases n - i,
    {
        if s.get_char(i) != prefix.get_char(i) {
            assert(s@.subrange(0, n as int)[i as int] != prefix@[i as int]);
            return false;
        }
        i = i + 1;
    }
    assert(s@.subrange(0, n as int) =~= prefix@);
    true
}

/// The first `n` characters of `s`, or all of them when it is shorter
/// (`s.chars().take(n).collect::<String>()`).
pub fn first_chars(s: &str, n: usize) -> (r: String)
    ensures
        r@ == s@.take(if n <= s@.len() { n as int } else { s@.len() as int }),
{
    let len = s.unicode_len();
    let k = if n <= len { n } else { len };
    String::from_str(s.substring_char(0, k))
}

/// The lower-case letters, in order.
proof fn lemma_alphabet(k: int)
    requires
        0 <= k < 26,
    ensures
        "abcdefghijklmnopqrstuvwxyz"@.len() == 26,
        "abcdefghijklmnopqrstuvwxyz"@[k] as u32 == 97 + k,
{
    reveal_strlit("abcdefghijklmnopqrstuvwxyz");
}

/// `s.to_ascii_lowercase()`: ASCII letters `A` to `Z` become `a` to `z`, and
/// every other character is kept.
pub fn to_ascii_lowercase(s: &str) -> (r: String)
    ensures
        r@ == spec_ascii_lowercase(s@),
{
    let alphabet = "abcdefghijklmnopqrstuvwxyz";
    let n = s.unicode_len();
    let mut r = String::new();
    let mut i: usize = 0;
    while i < n
        invariant
            n == s@.len(),
            i <= n,
            r@ == spec_ascii_lowercase(s@.take(i as int)),
            alphabet@ == "abcdefghijklmnopqrstuvwxyz"@,
        decreases n - i,
    {
        let c = s.get_char(i);
        let ghost before = r@;
        if 'A' <= c && c <= 'Z' {
            let k = ((c as u32) - ('A' as u32)) as usize;
            proof {
                assert(65 <= c as u32 <= 90);
                assert(k < 26);
                lemma_alphabet(k as int);
                assert(alphabet@.len() == 26);
            }
            let letter = alphabet.substring_char(k, k + 1);
            r.append(letter);
            proof {
                let l = alphabet@[k as int];
                assert(letter@ =~= seq![l]);
                assert(l as u32 == (c as u32) + 32);
                char_u32_cast(l, l as u32);
                assert(ascii_lower(c) == l);
            }
        } else {
            let rest = s.substring_char(i, i + 1);
            r.append(rest);
            proof {
                assert(rest@ =~= seq![c]);
                assert(ascii_lower(c) == c);
            }
        }
        proof {
            assert(s@.take(i + 1) =~= s@.take(i as int).push(c));
            assert(spec_ascii_lowercase(s@.take(i + 1)) =~= spec_ascii_lowercase(s@.take(i as int)).push(ascii_lower(c)));
            assert(r@ =~= before + seq![ascii_lower(c)]);
        }
        i = i + 1;
    }
    assert(s@.take(n as int) =~= s@);
    r
}

/// `s.trim().to_ascii_lowercase()`.
pub fn normalize_word(s: &str) -> (r: String)
    ensures
        r@ == spec_ascii_lowercase(spec_trim(s@)),
{
    to_ascii_lowercase(trim(s))
}

/// The length of `s` in bytes (`str::len`).
///
/// Calls `str::len`; a string slice's byte length always fits in `usize`,
/// which is the one thing this states beyond vstd's own specification.
#[verifier::external_body]
fn byte_len(s: &str) -> (n: usize)
    ensures
        n as int == encode_utf8(s@).len(),
{
    s.len()
}

/// Cut a string that is longer than `limit` bytes down to its first `head`
/// bytes, `...` and its last `tail` bytes; a shorter string is copied as it
/// is. This is `format!("{}...{}", &value[..head], &value[len - tail..])`.
pub fn abbreviate(value: &str, limit: usize, head: usize, tail: usize) -> (r: String)
    requires
        head <= limit,
        tail <= limit,
        can_abbreviate(encode_utf8(value@), limit as nat, head as nat, tail as nat),
    ensures
        encode_utf8(r@) == abbreviated_bytes(
            encode_utf8(value@),
            limit as nat,
            head as nat,
            tail as nat,
        ),
        r@ == spec_abbreviate(value@, limit as nat, head as nat, tail as nat),
{
    let ghost bytes = encode_utf8(value@);
    proof {
        encode_utf8_decode_utf8(value@);
    }
    let len = byte_len(value);
    if len <= limit {
        return String::from_str(value);
    }
    let (first, _) = value.split_at(head);
    let (_, last) = value.split_at(len - tail);
    let mut r = String::from_str(first);
    r.append("...");
    r.append(last);
    proof {
        lemma_ellipsis_bytes();
        lemma_encode_utf8_concat(first@, "..."@);
        lemma_encode_utf8_concat(first@ + "..."@, last@);
        assert(encode_utf8(r@) =~= abbreviated_bytes(
            bytes,
            limit as nat,
            head as nat,
            tail as nat,
        ));
        encode_utf8_decode_utf8(r@);
    }
    r
}

} // verus!
