//! Lines of a text: splitting at line endings the way `str::lines` documents
//! it, joining lines back with newlines, and the UTF-8 facts that cutting a
//! joined text to a byte budget needs.
use vstd::prelude::*;
use vstd::utf8::*;
use crate::text::{chars_of, string_push, utf8_bytes};

verus! {

/// The index of the first newline in `t`, or its length when it has none.
pub open spec fn nl_index(t: Seq<char>) -> nat
    decreases t.len(),
{
    if t.len() == 0 {
        0
    } else if t[0] == '\n' {
        0
    } else {
        1 + nl_index(t.drop_first())
    }
}

/// A line without the carriage return that ended it.
pub open spec fn strip_cr(line: Seq<char>) -> Seq<char> {
    if line.len() > 0 && line.last() == '\r' {
        line.drop_last()
    } else {
        line
    }
}

/// The lines of a text, as `str::lines` documents them: split at `\n` or
/// `\r\n`, line endings left out, and a final line ending optional (an empty
/// text has no lines; a bare `\r` is not a line ending).
pub open spec fn spec_lines(t: Seq<char>) -> Seq<Seq<char>>
    decreases t.len(),
{
    if t.len() == 0 {
        seq![]
    } else {
        let k = nl_index(t);
        if k >= t.len() {
            seq![t]
        } else {
            seq![strip_cr(t.subrange(0, k as int))] + spec_lines(t.subrange(k as int + 1, t.len() as int))
        }
    }
}

/// The first newline of `t` is at `k` when none comes before it and `k` holds
/// one or is the end.
pub proof fn lemma_nl_index(t: Seq<char>, k: int)
    requires
        0 <= k <= t.len(),
        forall|j: int| 0 <= j < k ==> t[j] != '\n',
        k < t.len() ==> t[k] == '\n',
    ensures
        nl_index(t) == k,
    decreases k,
{
    if k > 0 {
        lemma_nl_index(t.drop_first(), k - 1);
    }
}

/// The characters `cs[from..to]` as a string.
fn string_of_range(cs: &Vec<char>, from: usize, to: usize) -> (s: String)
    requires
        from <= to <= cs@.len(),
    ensures
        s@ == cs@.subrange(from as int, to as int),
{
    let mut s = String::new();
    let mut i: usize = from;
    while i < to
        invariant
            from <= i <= to <= cs@.len(),
            s@ == cs@.subrange(from as int, i as int),
        decreases to - i,
    {
        string_push(&mut s, cs[i]);
        proof {
            assert(cs@.subrange(from as int, i as int).push(cs@[i as int]) =~= cs@.subrange(from as int, i + 1));
        }
        i = i + 1;
    }
    s
}

/// The lines of a text, as `str::lines` gives them.
pub fn split_lines(text: &str) -> (lines: Vec<String>)
    ensures
        lines@.map_values(|l: String| l@) == spec_lines(text@),
{
    let cs = chars_of(text);
    let ghost t = text@;
    let mut out: Vec<String> = Vec::new();
    let mut start: usize = 0;
    let mut i: usize = 0;
    proof {
        assert(t.subrange(0, t.len() as int) =~= t);
    }
    while i < cs.len()
        invariant
            cs@ == t,
            start <= i <= cs@.len(),
            forall|j: int| start <= j < i ==> t[j] != '\n',
            spec_lines(t) == out@.map_values(|l: String| l@) + spec_lines(t.subrange(start as int, t.len() as int)),
        decreases cs@.len() - i,
    {
        if cs[i] == '\n' {
            let ghost rest = t.subrange(start as int, t.len() as int);
            proof {
                assert forall|j: int| 0 <= j < i - start implies rest[j] != '\n' by {
                    assert(rest[j] == t[start + j]);
                }
                assert(rest[i - start] == t[i as int]);
                lemma_nl_index(rest, i - start);
                assert(rest.subrange(0, i - start) =~= t.subrange(start as int, i as int));
                assert(rest.subrange(i - start + 1, rest.len() as int) =~= t.subrange(i + 1, t.len() as int));
            }
            let end = if i > start && cs[i - 1] == '\r' { i - 1 } else { i };
            let line = string_of_range(&cs, start, end);
            proof {
                let piece = t.subrange(start as int, i as int);
                if i > start && cs@[i - 1] == '\r' {
                    assert(piece.last() == '\r');
                    assert(piece.drop_last() =~= t.subrange(start as int, end as int));
                } else {
                    assert(piece =~= t.subrange(start as int, end as int));
                }
                assert(strip_cr(piece) == line@);
            }
            let ghost before = out@.map_values(|l: String| l@);
            out.push(line);
            proof {
                assert(out@.map_values(|l: String| l@) =~= before.push(line@));
                assert(spec_lines(rest) == seq![line@] + spec_lines(t.subrange(i + 1, t.len() as int)));
                assert(before + spec_lines(rest) =~= before.push(line@) + spec_lines(t.subrange(i + 1, t.len() as int)));
            }
            start = i + 1;
        }
        i = i + 1;
    }
    if start < cs.len() {
        let ghost rest = t.subrange(start as int, t.len() as int);
        proof {
            assert forall|j: int| 0 <= j < rest.len() implies rest[j] != '\n' by {
                assert(rest[j] == t[start + j]);
            }
            lemma_nl_index(rest, rest.len() as int);
        }
        let line = string_of_range(&cs, start, cs.len());
        let ghost before = out@.map_values(|l: String| l@);
        out.push(line);
        proof {
            assert(out@.map_values(|l: String| l@) =~= before.push(line@));
            assert(spec_lines(rest) == seq![rest]);
            assert(before + seq![rest] =~= before.push(line@));
        }
    } else {
        proof {
            assert(t.subrange(start as int, t.len() as int) =~= Seq::<char>::empty());
            assert(out@.map_values(|l: String| l@) + Seq::<Seq<char>>::empty() =~= out@.map_values(|l: String| l@));
        }
    }
    out
}

/// Lines joined the way a segment collects them: each line after a non-empty
/// text is preceded by a newline.
pub open spec fn join_lines(ls: Seq<Seq<char>>) -> Seq<char>
    decreases ls.len(),
{
    if ls.len() == 0 {
        seq![]
    } else {
        let a = join_lines(ls.drop_last());
        (if a.len() > 0 { a.push('\n') } else { a }) + ls.last()
    }
}

/// Joining fewer of the lines gives a prefix of joining more of them.
pub proof fn lemma_join_prefix(ls: Seq<Seq<char>>, i: int)
    requires
        0 <= i <= ls.len(),
    ensures
        join_lines(ls.subrange(0, i)).len() <= join_lines(ls).len(),
        join_lines(ls) .subrange(0, join_lines(ls.subrange(0, i)).len() as int) == join_lines(ls.subrange(0, i)),
    decreases ls.len(),
{
    if i == ls.len() {
        assert(ls.subrange(0, i) =~= ls);
        assert(join_lines(ls).subrange(0, join_lines(ls).len() as int) =~= join_lines(ls));
    } else {
        let d = ls.drop_last();
        assert(ls.subrange(0, i) =~= d.subrange(0, i));
        lemma_join_prefix(d, i);
        let a = join_lines(d);
        let p = join_lines(d.subrange(0, i));
        let whole = (if a.len() > 0 { a.push('\n') } else { a }) + ls.last();
        assert(join_lines(ls) == whole);
        assert(whole.subrange(0, p.len() as int) =~= a.subrange(0, p.len() as int));
    }
}

/// The encoding of two texts one after the other is their encodings one after the other.
pub proof fn lemma_utf8_concat(a: Seq<char>, b: Seq<char>)
    ensures
        utf8_bytes(a + b) == utf8_bytes(a) + utf8_bytes(b),
    decreases a.len(),
{
    if a.len() == 0 {
        assert(a + b =~= b);
    } else {
        lemma_utf8_concat(a.drop_first(), b);
        assert((a + b).drop_first() =~= a.drop_first() + b);
        assert((a + b)[0] == a[0]);
        assert(encode_scalar(a[0] as u32) + (utf8_bytes(a.drop_first()) + utf8_bytes(b))
            =~= (encode_scalar(a[0] as u32) + utf8_bytes(a.drop_first())) + utf8_bytes(b));
    }
}

/// The end of a text's encoding is a character boundary of the encoding of
/// any text that continues it.
pub proof fn lemma_boundary_after_prefix(a: Seq<char>, r: Seq<char>)
    ensures
        is_char_boundary(utf8_bytes(a + r), utf8_bytes(a).len() as int),
    decreases a.len(),
{
    broadcast use group_utf8_lib;
    let s = a + r;
    if a.len() == 0 {
    } else {
        let bytes = encode_utf8(s);
        assert(s[0] == a[0]);
        encode_utf8_first_scalar(s);
        assert(pop_first_scalar(bytes) =~= encode_utf8(s.drop_first()));
        assert(s.drop_first() =~= a.drop_first() + r);
        lemma_boundary_after_prefix(a.drop_first(), r);
        lemma_utf8_concat(a, r);
        assert(encode_utf8(a).len() == encode_scalar(a[0] as u32).len() + encode_utf8(a.drop_first()).len());
        assert(encode_utf8(a).len() > 0);
    }
}

/// Cutting a longer text at a byte index that lies within a prefix: the bytes
/// before it agree, and the index is a character boundary of one exactly when
/// it is one of the other.
pub proof fn lemma_prefix_bytes(x: Seq<char>, y: Seq<char>, b: int)
    requires
        x.len() <= y.len(),
        y.subrange(0, x.len() as int) == x,
        0 <= b <= utf8_bytes(x).len(),
    ensures
        utf8_bytes(y).subrange(0, b) == utf8_bytes(x).subrange(0, b),
        is_char_boundary(utf8_bytes(y), b) == is_char_boundary(utf8_bytes(x), b),
        utf8_bytes(x).len() <= utf8_bytes(y).len(),
{
    broadcast use group_utf8_lib;
    let rest = y.subrange(x.len() as int, y.len() as int);
    assert(y =~= x + rest);
    lemma_utf8_concat(x, rest);
    let bx = utf8_bytes(x);
    let by = utf8_bytes(y);
    assert(by.subrange(0, b) =~= bx.subrange(0, b));
    encode_utf8_valid_utf8(x);
    encode_utf8_valid_utf8(y);
    if b < bx.len() {
        assert(by[b] == bx[b]);
        is_char_boundary_iff_not_is_continuation_byte(bx, b);
        is_char_boundary_iff_not_is_continuation_byte(by, b);
    } else {
        is_char_boundary_start_end_of_seq(bx);
        lemma_boundary_after_prefix(x, rest);
    }
}

} // verus!
