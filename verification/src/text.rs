//! Character and UTF-8 helpers that the rest of the library builds on.
use vstd::prelude::*;
use vstd::utf8::*;
use vstd::string::*;

verus! {

/// The UTF-8 encoding of a sequence of characters.
pub open spec fn utf8_bytes(s: Seq<char>) -> Seq<u8> {
    encode_utf8(s)
}

/// Appends one character to a string (`String::push`).
#[verifier::external_body]
pub(crate) fn string_push(s: &mut String, c: char)
    ensures
        final(s)@ == old(s)@.push(c),
{
    s.push(c);
}

/// The byte length of a string, as `str::len` reports it.
pub open spec fn byte_len(s: Seq<char>) -> usize {
    utf8_bytes(s).len() as usize
}

/// Shortens a string to its first `new_len` bytes (`String::truncate`). The
/// standard library panics unless `new_len` lies on a character boundary, so the
/// contract asks for one; at the end of the string the call changes nothing.
#[verifier::external_body]
pub(crate) fn string_truncate(s: &mut String, new_len: usize)
    requires
        is_char_boundary(utf8_bytes(old(s)@), new_len as int),
    ensures
        utf8_bytes(final(s)@) == utf8_bytes(old(s)@).subrange(0, new_len as int),
{
    s.truncate(new_len);
}

/// A string is determined by its UTF-8 bytes, and cutting the bytes at a character
/// boundary cuts the characters: the characters of the first part are a prefix.
pub proof fn lemma_utf8_prefix(whole: Seq<char>, part: Seq<char>, k: int)
    requires
        is_char_boundary(utf8_bytes(whole), k),
        utf8_bytes(part) == utf8_bytes(whole).subrange(0, k),
    ensures
        part.len() <= whole.len(),
        part == whole.subrange(0, part.len() as int),
{
    broadcast use group_utf8_lib;
    let b = utf8_bytes(whole);
    decode_utf8_split(b, k);
    let rest = decode_utf8(b.subrange(k, b.len() as int));
    assert(decode_utf8(b) == whole);
    assert(decode_utf8(utf8_bytes(part)) == part);
    assert(whole =~= part + rest);
    assert(whole.subrange(0, part.len() as int) =~= part);
}

/// Filtering a sequence with one more element keeps that element exactly when
/// it satisfies the predicate.
pub proof fn lemma_filter_push<A>(s: Seq<A>, pred: spec_fn(A) -> bool, e: A)
    ensures
        pred(e) ==> s.push(e).filter(pred) == s.filter(pred).push(e),
        !pred(e) ==> s.push(e).filter(pred) == s.filter(pred),
{
    reveal(Seq::filter);
    assert(s.push(e).drop_last() =~= s);
}

/// Builds a string holding exactly the given characters.
pub fn string_from_chars(chars: &[char]) -> (s: String)
    ensures
        s@ == chars@,
{
    let mut s = String::new();
    let mut i: usize = 0;
    while i < chars.len()
        invariant
            i <= chars@.len(),
            s@ == chars@.subrange(0, i as int),
        decreases chars@.len() - i,
    {
        string_push(&mut s, chars[i]);
        proof {
            assert(chars@.subrange(0, i as int).push(chars@[i as int]) =~= chars@.subrange(0, i + 1));
        }
        i = i + 1;
    }
    proof {
        assert(chars@.subrange(0, chars@.len() as int) =~= chars@);
    }
    s
}

/// The characters of a string, in order.
pub fn chars_of(s: &str) -> (v: Vec<char>)
    ensures
        v@ == s@,
{
    broadcast use vstd::string::group_string_axioms;
    let mut v: Vec<char> = Vec::new();
    for c in it: s.chars()
        invariant
            v@ == it.seq().subrange(0, it.index() as int),
    {
        v.push(c);
    }
    v
}

/// Whether `s` begins with `prefix`.
pub open spec fn has_prefix(s: Seq<char>, prefix: Seq<char>) -> bool {
    prefix.len() <= s.len() && s.subrange(0, prefix.len() as int) == prefix
}

/// Whether the first `prefix.len()` characters of `s` are those of `prefix`.
pub fn chars_start_with(s: &[char], prefix: &[char]) -> (b: bool)
    ensures
        b == has_prefix(s@, prefix@),
{
    if prefix.len() > s.len() {
        return false;
    }
    let mut i: usize = 0;
    while i < prefix.len()
        invariant
            prefix@.len() <= s@.len(),
            i <= prefix@.len(),
            forall|k: int| 0 <= k < i ==> s@[k] == prefix@[k],
        decreases prefix@.len() - i,
    {
        if s[i] != prefix[i] {
            proof {
                assert(s@.subrange(0, prefix@.len() as int)[i as int] != prefix@[i as int]);
            }
            return false;
        }
        i = i + 1;
    }
    proof {
        assert(s@.subrange(0, prefix@.len() as int) =~= prefix@);
    }
    true
}

/// Whether two strings hold the same characters.
pub fn str_eq(a: &str, b: &str) -> (r: bool)
    ensures
        r == (a@ == b@),
{
    let x = chars_of(a);
    let y = chars_of(b);
    if x.len() != y.len() {
        return false;
    }
    let r = chars_start_with(x.as_slice(), y.as_slice());
    proof {
        assert(x@.subrange(0, y@.len() as int) =~= x@);
    }
    r
}

/// The string holding the characters of `s` from position `start` on.
pub fn chars_suffix(s: &[char], start: usize) -> (r: String)
    requires
        start <= s@.len(),
    ensures
        r@ == s@.subrange(start as int, s@.len() as int),
{
    let mut r = String::new();
    let mut i: usize = start;
    while i < s.len()
        invariant
            start <= i <= s@.len(),
            r@ == s@.subrange(start as int, i as int),
        decreases s@.len() - i,
    {
        string_push(&mut r, s[i]);
        proof {
            assert(s@.subrange(start as int, i as int).push(s@[i as int]) =~= s@.subrange(start as int, i + 1));
        }
        i = i + 1;
    }
    r
}

/// Unicode `White_Space` characters, which `char::is_whitespace` and `str::trim` use.
pub open spec fn is_white_space(c: char) -> bool {
    let u = c as u32;
    ||| (0x09 <= u && u <= 0x0D)
    ||| u == 0x20
    ||| u == 0x85
    ||| u == 0xA0
    ||| u == 0x1680
    ||| (0x2000 <= u && u <= 0x200A)
    ||| u == 0x2028
    ||| u == 0x2029
    ||| u == 0x202F
    ||| u == 0x205F
    ||| u == 0x3000
}

/// Whether `c` has the Unicode `White_Space` property.
pub fn is_whitespace(c: char) -> (b: bool)
    ensures
        b == is_white_space(c),
{
    let u = c as u32;
    (0x09 <= u && u <= 0x0D) || u == 0x20 || u == 0x85 || u == 0xA0 || u == 0x1680
        || (0x2000 <= u && u <= 0x200A) || u == 0x2028 || u == 0x2029 || u == 0x202F
        || u == 0x205F || u == 0x3000
}

/// `s` without its leading white space.
pub open spec fn trim_start_seq(s: Seq<char>) -> Seq<char>
    decreases s.len(),
{
    if s.len() > 0 && is_white_space(s[0]) { trim_start_seq(s.drop_first()) } else { s }
}

/// `s` without its trailing white space.
pub open spec fn trim_end_seq(s: Seq<char>) -> Seq<char>
    decreases s.len(),
{
    if s.len() > 0 && is_white_space(s.last()) { trim_end_seq(s.drop_last()) } else { s }
}

/// `s` without leading and trailing white space, as `str::trim` gives it.
pub open spec fn trim_seq(s: Seq<char>) -> Seq<char> {
    trim_end_seq(trim_start_seq(s))
}

/// The string without leading and trailing white space.
pub fn trim(s: &str) -> (r: String)
    ensures
        r@ == trim_seq(s@),
{
    let cs = chars_of(s);
    let n = cs.len();
    let mut start: usize = 0;
    proof {
        assert(cs@.subrange(0, n as int) =~= cs@);
    }
    while start < n && is_whitespace(cs[start])
        invariant
            n == cs@.len(),
            cs@ == s@,
            start <= n,
            trim_start_seq(s@) == trim_start_seq(cs@.subrange(start as int, n as int)),
        decreases n - start,
    {
        proof {
            assert(cs@.subrange(start as int, n as int).drop_first() =~= cs@.subrange(start + 1, n as int));
        }
        start = start + 1;
    }
    let mut end: usize = n;
    let ghost mid = cs@.subrange(start as int, n as int);
    proof {
        assert(trim_start_seq(mid) == mid);
    }
    while end > start && is_whitespace(cs[end - 1])
        invariant
            n == cs@.len(),
            start <= end <= n,
            mid == cs@.subrange(start as int, n as int),
            trim_end_seq(mid) == trim_end_seq(cs@.subrange(start as int, end as int)),
        decreases end - start,
    {
        proof {
            assert(cs@.subrange(start as int, end as int).drop_last() =~= cs@.subrange(start as int, end - 1));
        }
        end = end - 1;
    }
    let mut r = String::new();
    let mut i: usize = start;
    while i < end
        invariant
            start <= i <= end,
            end <= n,
            n == cs@.len(),
            r@ == cs@.subrange(start as int, i as int),
        decreases end - i,
    {
        string_push(&mut r, cs[i]);
        proof {
            assert(cs@.subrange(start as int, i as int).push(cs@[i as int]) =~= cs@.subrange(start as int, i + 1));
        }
        i = i + 1;
    }
    r
}

} // verus!
