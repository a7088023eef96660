//! Files of the editor: the segments read out of a text file within a byte
//! budget, the lines picked out of a file, and the model that tracks which
//! file each id stands for and which version of it was last loaded or saved.
use vstd::prelude::*;
use vstd::utf8::*;
use std::collections::{HashMap, HashSet};
use std::ops::Range;
use crate::text::{string_push, string_truncate, utf8_bytes};
use crate::text_lines::{join_lines, lemma_join_prefix, lemma_prefix_bytes, nl_index, spec_lines, split_lines};

verus! {

broadcast use vstd::std_specs::hash::group_hash_axioms;

/// A point in time as `std::time::SystemTime` records it.
#[verifier::external_type_specification]
#[verifier::external_body]
pub struct ExSystemTime(std::time::SystemTime);

/// A piece of a text file: its name, the text read, the lines asked for (when
/// a range was asked for), when the file was last modified, and how many lines
/// the whole file has.
#[derive(Debug, PartialEq, Eq)]
pub struct TextFileSegment {
    pub file_name: String,
    pub content: String,
    pub line_range: Option<Range<usize>>,
    pub last_modified: Option<std::time::SystemTime>,
    pub line_count: usize,
}

impl Clone for TextFileSegment {
    fn clone(&self) -> (c: Self)
        ensures
            c == *self,
    {
        TextFileSegment {
            file_name: self.file_name.clone(),
            content: self.content.clone(),
            line_range: match &self.line_range {
                Some(r) => Some(Range { start: r.start, end: r.end }),
                None => None,
            },
            last_modified: self.last_modified,
            line_count: self.line_count,
        }
    }
}

/// What reading a text file gave: its segments and the bytes they hold, or
/// the news that the file is not UTF-8 text.
pub enum TextFileReadResult {
    Segments { segments: Vec<TextFileSegment>, bytes_read: usize },
    NotText,
}

/// The ranges a read covers: those asked for, or every line when none were.
pub open spec fn effective_ranges(requested: Seq<Range<usize>>) -> Seq<Range<usize>> {
    if requested.len() == 0 {
        seq![Range { start: 1usize, end: usize::MAX }]
    } else {
        requested
    }
}

/// The indexes `lo..hi` of the lines whose one-based numbers lie in `start..end`.
pub open spec fn line_window(start: usize, end: usize, n: int) -> (int, int) {
    let lo = if start == 0 { 0 } else { start - 1 };
    let hi = if end == 0 { 0 } else { end - 1 };
    let lo2 = if lo < n { lo } else { n };
    let hi2 = if hi < n { hi } else { n };
    (lo2, if hi2 < lo2 { lo2 } else { hi2 })
}

/// The lines whose one-based numbers lie in the range.
pub open spec fn range_lines(ls: Seq<Seq<char>>, r: Range<usize>) -> Seq<Seq<char>> {
    let w = line_window(r.start, r.end, ls.len() as int);
    ls.subrange(w.0, w.1)
}

/// The bytes of a text cut to a budget: all of them when they fit, else the first `budget`.
pub open spec fn cut_bytes(j: Seq<char>, budget: int) -> Seq<u8> {
    let b = utf8_bytes(j);
    if b.len() >= budget {
        b.subrange(0, budget)
    } else {
        b
    }
}

/// The bytes of each segment: the lines of each range in turn, joined and cut
/// to what is left of `max`, until nothing is left.
pub open spec fn segment_contents(ls: Seq<Seq<char>>, ranges: Seq<Range<usize>>, max: int, read: int) -> Seq<Seq<u8>>
    decreases ranges.len(),
{
    if ranges.len() == 0 || read >= max {
        seq![]
    } else {
        let c = cut_bytes(join_lines(range_lines(ls, ranges[0])), max - read);
        seq![c] + segment_contents(ls, ranges.drop_first(), max, read + c.len())
    }
}

/// How many bytes the segments hold in all.
pub open spec fn bytes_read_after(ls: Seq<Seq<char>>, ranges: Seq<Range<usize>>, max: int, read: int) -> int
    decreases ranges.len(),
{
    if ranges.len() == 0 || read >= max {
        read
    } else {
        let c = cut_bytes(join_lines(range_lines(ls, ranges[0])), max - read);
        bytes_read_after(ls, ranges.drop_first(), max, read + c.len())
    }
}

/// Whether every cut falls on a character boundary (`String::truncate`
/// panics on any other).
pub open spec fn cuts_on_boundaries(ls: Seq<Seq<char>>, ranges: Seq<Range<usize>>, max: int, read: int) -> bool
    decreases ranges.len(),
{
    if ranges.len() == 0 || read >= max {
        true
    } else {
        let j = join_lines(range_lines(ls, ranges[0]));
        let c = cut_bytes(j, max - read);
        &&& (utf8_bytes(j).len() >= max - read ==> is_char_boundary(utf8_bytes(j), max - read))
        &&& cuts_on_boundaries(ls, ranges.drop_first(), max, read + c.len())
    }
}

/// The text of the lines of `start..end` (one-based), cut to `budget` bytes;
/// `None` when the cut would split a character.
fn segment_for_range(lines: &Vec<String>, start: usize, end: usize, budget: usize) -> (r: Option<String>)
    requires
        budget > 0,
    ensures
        ({
            let ls = lines@.map_values(|l: String| l@);
            let j = join_lines(range_lines(ls, Range { start, end }));
            &&& r is None <==> (utf8_bytes(j).len() >= budget && !is_char_boundary(utf8_bytes(j), budget as int))
            &&& r matches Some(s) ==> utf8_bytes(s@) == cut_bytes(j, budget as int)
        }),
{
    let ghost ls = lines@.map_values(|l: String| l@);
    let n = lines.len();
    let lo0 = if start == 0 { 0 } else { start - 1 };
    let hi0 = if end == 0 { 0 } else { end - 1 };
    let lo = if lo0 < n { lo0 } else { n };
    let hi1 = if hi0 < n { hi0 } else { n };
    let hi = if hi1 < lo { lo } else { hi1 };
    let ghost sub = ls.subrange(lo as int, hi as int);
    let ghost j = join_lines(sub);
    proof {
        assert(range_lines(ls, Range { start, end }) == sub);
        assert(sub.subrange(0, 0) =~= Seq::<Seq<char>>::empty());
    }
    let mut seg = String::new();
    let mut i: usize = lo;
    while i < hi
        invariant
            lo <= i <= hi <= n,
            n == lines@.len(),
            ls == lines@.map_values(|l: String| l@),
            sub == ls.subrange(lo as int, hi as int),
            sub == range_lines(ls, Range { start, end }),
            j == join_lines(sub),
            budget > 0,
            seg@ == join_lines(sub.subrange(0, i - lo)),
            utf8_bytes(seg@).len() < budget,
        decreases hi - i,
    {
        let ghost before = seg@;
        if seg.as_str().as_bytes().len() > 0 {
            string_push(&mut seg, '\n');
        }
        seg.append(lines[i].as_str());
        proof {
            let p = sub.subrange(0, i + 1 - lo);
            assert(p.drop_last() =~= sub.subrange(0, i - lo));
            assert(p.last() == lines@[i as int]@);
            if before.len() > 0 {
                assert(utf8_bytes(before).len() > 0) by {
                    vstd::utf8::encode_utf8_first_scalar(before);
                }
            } else {
                assert(utf8_bytes(before).len() == 0 ==> before.len() == 0);
            }
            assert(seg@ == join_lines(p));
            lemma_join_prefix(sub, i + 1 - lo);
        }
        if seg.as_str().as_bytes().len() >= budget {
            proof {
                lemma_prefix_bytes(seg@, j, budget as int);
                assert(utf8_bytes(j).len() >= budget);
                assert(is_char_boundary(utf8_bytes(j), budget as int) == is_char_boundary(utf8_bytes(seg@), budget as int));
                assert(j == join_lines(range_lines(lines@.map_values(|l: String| l@), Range { start, end })));
            }
            if !seg.as_str().is_char_boundary(budget) {
                assert(!is_char_boundary(utf8_bytes(seg@), budget as int));
                return None;
            }
            let ghost full = seg@;
            string_truncate(&mut seg, budget);
            return Some(seg);
        }
        i = i + 1;
    }
    proof {
        assert(sub.subrange(0, hi - lo) =~= sub);
    }
    Some(seg)
}

/// Whether each segment is what the spec says: its bytes, its range (none
/// when no range was asked for), the file's name, modification time and line count.
pub open spec fn segments_as_specified(
    segments: Seq<TextFileSegment>,
    contents: Seq<Seq<u8>>,
    requested: Seq<Range<usize>>,
    file_name: String,
    last_modified: Option<std::time::SystemTime>,
    line_count: int,
) -> bool {
    &&& segments.len() == contents.len()
    &&& forall|i: int| 0 <= i < segments.len() ==> {
        &&& utf8_bytes(#[trigger] segments[i].content@) == contents[i]
        &&& segments[i].file_name == file_name
        &&& segments[i].line_range == (if requested.len() == 0 { None } else { Some(requested[i]) })
        &&& segments[i].last_modified == last_modified
        &&& segments[i].line_count == line_count
    }
}

/// Reads segments out of a text: for each range asked for (every line when
/// none was), the lines joined by newlines, cut to the bytes left of
/// `max_bytes`, until the budget is spent. `None` when a cut would split a
/// character, where `String::truncate` panics.
pub fn try_text_file_segments(
    content: &str,
    file_name: String,
    max_bytes: usize,
    requested_ranges: &[Range<usize>],
    last_modified: Option<std::time::SystemTime>,
) -> (r: Option<TextFileReadResult>)
    ensures
        ({
            let ls = spec_lines(content@);
            let rs = effective_ranges(requested_ranges@);
            &&& r is None <==> !cuts_on_boundaries(ls, rs, max_bytes as int, 0)
            &&& r matches Some(res) ==> (res matches TextFileReadResult::Segments { segments, bytes_read }
                && bytes_read == bytes_read_after(ls, rs, max_bytes as int, 0)
                && segments_as_specified(
                    segments@,
                    segment_contents(ls, rs, max_bytes as int, 0),
                    requested_ranges@,
                    file_name,
                    last_modified,
                    ls.len() as int,
                ))
        }),
{
    let lines = split_lines(content);
    let ghost ls = lines@.map_values(|l: String| l@);
    let line_count = lines.len();
    let ghost rs = effective_ranges(requested_ranges@);
    let n_ranges: usize = if requested_ranges.len() == 0 { 1 } else { requested_ranges.len() };
    let mut bytes_read: usize = 0;
    let mut segments: Vec<TextFileSegment> = Vec::new();
    let mut k: usize = 0;
    proof {
        assert(rs.subrange(0, rs.len() as int) =~= rs);
        assert(segment_contents(ls, rs, max_bytes as int, 0) =~= Seq::<Seq<u8>>::empty() + segment_contents(ls, rs, max_bytes as int, 0));
    }
    while k < n_ranges
        invariant
            ls == lines@.map_values(|l: String| l@),
            ls == spec_lines(content@),
            line_count == ls.len(),
            rs == effective_ranges(requested_ranges@),
            n_ranges == rs.len(),
            k <= n_ranges,
            bytes_read <= max_bytes,
            segment_contents(ls, rs, max_bytes as int, 0)
                == segments@.map_values(|g: TextFileSegment| utf8_bytes(g.content@))
                    + segment_contents(ls, rs.subrange(k as int, rs.len() as int), max_bytes as int, bytes_read as int),
            bytes_read_after(ls, rs, max_bytes as int, 0)
                == bytes_read_after(ls, rs.subrange(k as int, rs.len() as int), max_bytes as int, bytes_read as int),
            cuts_on_boundaries(ls, rs, max_bytes as int, 0)
                == cuts_on_boundaries(ls, rs.subrange(k as int, rs.len() as int), max_bytes as int, bytes_read as int),
            segments@.len() == k,
            forall|i: int| 0 <= i < k ==> {
                &&& (#[trigger] segments@[i]).file_name == file_name
                &&& segments@[i].line_range == (if requested_ranges@.len() == 0 { None } else { Some(requested_ranges@[i]) })
                &&& segments@[i].last_modified == last_modified
                &&& segments@[i].line_count == line_count
            },
        ensures
            k >= n_ranges || bytes_read >= max_bytes,
        decreases n_ranges - k,
    {
        if bytes_read >= max_bytes {
            break;
        }
        let range = if requested_ranges.len() == 0 {
            Range { start: 1usize, end: usize::MAX }
        } else {
            Range { start: requested_ranges[k].start, end: requested_ranges[k].end }
        };
        let ghost rest = rs.subrange(k as int, rs.len() as int);
        proof {
            assert(rest[0] == rs[k as int]);
            assert(range == rs[k as int]);
            assert(rest.drop_first() =~= rs.subrange(k + 1, rs.len() as int));
        }
        let budget = max_bytes - bytes_read;
        let seg = segment_for_range(&lines, range.start, range.end, budget);
        match seg {
            None => {
                return None;
            },
            Some(content_text) => {
                let ghost c = utf8_bytes(content_text@);
                let seg_len = content_text.as_str().as_bytes().len();
                let ghost before = segments@.map_values(|g: TextFileSegment| utf8_bytes(g.content@));
                let line_range = if requested_ranges.len() == 0 {
                    None
                } else {
                    Some(Range { start: range.start, end: range.end })
                };
                segments.push(TextFileSegment {
                    file_name: file_name.clone(),
                    content: content_text,
                    line_range,
                    last_modified,
                    line_count,
                });
                proof {
                    assert(segments@.map_values(|g: TextFileSegment| utf8_bytes(g.content@)) =~= before.push(c));
                    assert(before + (seq![c] + segment_contents(ls, rs.subrange(k + 1, rs.len() as int), max_bytes as int, bytes_read + c.len()))
                        =~= before.push(c) + segment_contents(ls, rs.subrange(k + 1, rs.len() as int), max_bytes as int, bytes_read + c.len()));
                }
                bytes_read = bytes_read + seg_len;
            },
        }
        k = k + 1;
    }
    proof {
        let rest = rs.subrange(k as int, rs.len() as int);
        assert(segment_contents(ls, rest, max_bytes as int, bytes_read as int) =~= Seq::<Seq<u8>>::empty());
        assert(segments@.map_values(|g: TextFileSegment| utf8_bytes(g.content@)) + Seq::<Seq<u8>>::empty()
            =~= segments@.map_values(|g: TextFileSegment| utf8_bytes(g.content@)));
        let contents = segment_contents(ls, rs, max_bytes as int, 0);
        assert forall|i: int| 0 <= i < segments@.len() implies utf8_bytes(#[trigger] segments@[i].content@) == contents[i] by {
            assert(segments@.map_values(|g: TextFileSegment| utf8_bytes(g.content@))[i] == utf8_bytes(segments@[i].content@));
        }
    }
    Some(TextFileReadResult::Segments { segments, bytes_read })
}

/// Reads segments out of a text (see `try_text_file_segments`) where no cut splits a character.
pub fn text_file_segments(
    content: &str,
    file_name: String,
    max_bytes: usize,
    requested_ranges: &[Range<usize>],
    last_modified: Option<std::time::SystemTime>,
) -> (res: TextFileReadResult)
    requires
        cuts_on_boundaries(spec_lines(content@), effective_ranges(requested_ranges@), max_bytes as int, 0),
    ensures
        ({
            let ls = spec_lines(content@);
            let rs = effective_ranges(requested_ranges@);
            res matches TextFileReadResult::Segments { segments, bytes_read }
                && bytes_read == bytes_read_after(ls, rs, max_bytes as int, 0)
                && segments_as_specified(
                    segments@,
                    segment_contents(ls, rs, max_bytes as int, 0),
                    requested_ranges@,
                    file_name,
                    last_modified,
                    ls.len() as int,
                )
        }),
{
    match try_text_file_segments(content, file_name, max_bytes, requested_ranges, last_modified) {
        Some(r) => r,
        None => TextFileReadResult::NotText,
    }
}

/// `String::from_utf8`: the text the bytes encode, when they are valid UTF-8.
#[verifier::external_body]
fn string_from_utf8(bytes: Vec<u8>) -> (r: Option<String>)
    ensures
        r matches Some(s) ==> utf8_bytes(s@) == bytes@,
        r is None ==> !valid_utf8(bytes@),
{
    String::from_utf8(bytes).ok()
}

/// Reads segments out of the bytes of a file: `NotText` when they are not
/// UTF-8, else the segments of the text (see `try_text_file_segments`);
/// `None` when a cut would split a character.
pub fn try_read_text_file_bytes(
    bytes: Vec<u8>,
    file_name: String,
    max_bytes: usize,
    requested_ranges: &[Range<usize>],
    last_modified: Option<std::time::SystemTime>,
) -> (r: Option<TextFileReadResult>)
    ensures
        !valid_utf8(bytes@) ==> (r matches Some(res) && res is NotText),
        valid_utf8(bytes@) ==> ({
            let ls = spec_lines(decode_utf8(bytes@));
            let rs = effective_ranges(requested_ranges@);
            &&& r is None <==> !cuts_on_boundaries(ls, rs, max_bytes as int, 0)
            &&& r matches Some(res) ==> (res matches TextFileReadResult::Segments { segments, bytes_read }
                && bytes_read == bytes_read_after(ls, rs, max_bytes as int, 0)
                && segments_as_specified(
                    segments@,
                    segment_contents(ls, rs, max_bytes as int, 0),
                    requested_ranges@,
                    file_name,
                    last_modified,
                    ls.len() as int,
                ))
        }),
{
    let ghost b = bytes@;
    match string_from_utf8(bytes) {
        None => Some(TextFileReadResult::NotText),
        Some(content) => {
            proof {
                encode_utf8_decode_utf8(content@);
                encode_utf8_valid_utf8(content@);
            }
            try_text_file_segments(content.as_str(), file_name, max_bytes, requested_ranges, last_modified)
        },
    }
}

/// The lines, numbered from zero, whose numbers are wanted, in order.
pub open spec fn wanted_lines(ls: Seq<Seq<char>>, wanted: Set<usize>, upto: int) -> Seq<(usize, Seq<char>)>
    decreases upto,
{
    if upto <= 0 {
        seq![]
    } else {
        let prev = wanted_lines(ls, wanted, upto - 1);
        if wanted.contains((upto - 1) as usize) {
            prev.push(((upto - 1) as usize, ls[upto - 1]))
        } else {
            prev
        }
    }
}

/// The lines of a text whose zero-based numbers are among `line_numbers`,
/// each with its number, in the order of the text.
pub fn requested_lines(content: &str, line_numbers: Vec<usize>) -> (r: Vec<(usize, String)>)
    ensures
        r@.map_values(|p: (usize, String)| (p.0, p.1@))
            == wanted_lines(spec_lines(content@), line_numbers@.to_set(), spec_lines(content@).len() as int),
{
    let mut requested: HashSet<usize> = HashSet::new();
    let ghost nums = line_numbers@;
    for n in it: line_numbers
        invariant
            nums == it.seq(),
            requested@ == it.seq().subrange(0, it.index() as int).to_set(),
    {
        proof {
            assert(it.seq().subrange(0, it.index() + 1) =~= it.seq().subrange(0, it.index() as int).push(n));
            it.seq().subrange(0, it.index() as int).lemma_push_to_set_commute(n);
        }
        requested.insert(n);
    }
    proof {
        assert(nums.subrange(0, nums.len() as int) =~= nums);
    }
    let lines = split_lines(content);
    let ghost ls = lines@.map_values(|l: String| l@);
    let mut out: Vec<(usize, String)> = Vec::new();
    let mut i: usize = 0;
    while i < lines.len()
        invariant
            i <= lines@.len(),
            ls == lines@.map_values(|l: String| l@),
            requested@ == nums.to_set(),
            out@.map_values(|p: (usize, String)| (p.0, p.1@)) == wanted_lines(ls, nums.to_set(), i as int),
        decreases lines@.len() - i,
    {
        if requested.contains(&i) {
            let ghost before = out@.map_values(|p: (usize, String)| (p.0, p.1@));
            out.push((i, lines[i].clone()));
            proof {
                assert(out@.map_values(|p: (usize, String)| (p.0, p.1@)) =~= before.push((i, ls[i as int])));
            }
        }
        i = i + 1;
    }
    out
}

/// The id of a file that the model tracks.
#[derive(Debug, Clone, Copy, PartialEq, Eq, Structural, Hash)]
pub struct FileId(pub u64);

/// A version of a file's content.
#[derive(Debug, Clone, Copy, PartialEq, Eq, Structural, Hash)]
pub struct ContentVersion(pub u64);

/// Why a file could not be loaded.
#[derive(Debug, PartialEq, Eq)]
pub enum FileLoadError {
    DoesNotExist,
    IOError { message: String },
}

/// Why a file could not be saved.
#[derive(Debug, PartialEq, Eq)]
pub enum FileSaveError {
    NoFilePath(FileId),
    IOError { message: String, path: String },
    RemoteError(String),
}

/// What the file model tells its observers.
#[derive(Debug)]
pub enum FileModelEvent {
    FileLoaded { content: String, id: FileId, version: ContentVersion },
    FailedToLoad { id: FileId, error: FileLoadError },
    FileSaved { id: FileId, version: ContentVersion },
    FailedToSave { id: FileId, error: FileSaveError },
    FileUpdated { id: FileId, content: String, base_version: ContentVersion, new_version: ContentVersion },
}

impl FileModelEvent {
    /// The file the event is about.
    pub fn file_id(&self) -> (id: FileId)
        ensures
            id == match *self {
                FileModelEvent::FileLoaded { id, .. } => id,
                FileModelEvent::FailedToLoad { id, .. } => id,
                FileModelEvent::FileSaved { id, .. } => id,
                FileModelEvent::FailedToSave { id, .. } => id,
                FileModelEvent::FileUpdated { id, .. } => id,
            },
    {
        match self {
            FileModelEvent::FileLoaded { id, .. } => *id,
            FileModelEvent::FailedToLoad { id, .. } => *id,
            FileModelEvent::FileSaved { id, .. } => *id,
            FileModelEvent::FailedToSave { id, .. } => *id,
            FileModelEvent::FileUpdated { id, .. } => *id,
        }
    }
}

/// Where a file lives: at a local path, or on a remote host.
#[derive(Debug, PartialEq, Eq)]
pub enum FileBackend {
    Local(String),
    Remote { host_id: String, path: String },
}

/// The file model as plain values: the file each id stands for, the version
/// of each file, and the next id and version to hand out.
pub struct FileModelView {
    pub files: Map<u64, FileBackend>,
    pub versions: Map<u64, ContentVersion>,
    pub next_file_id: u64,
    pub next_version: u64,
}

/// The files that editors have open or registered, by id, and the version of
/// each that was last loaded or saved.
pub struct FileModel {
    files: HashMap<u64, FileBackend>,
    versions: HashMap<u64, ContentVersion>,
    next_file_id: u64,
    next_version: u64,
}

/// What the caller has to do on disk for a save, a rename or a delete, or the
/// event that reports why it cannot be done.
#[derive(Debug)]
pub enum FileWriteStep {
    Write { path: String, content: String },
    RenameAndWrite { from: String, to: String, content: String },
    Remove { path: String },
    Rejected(FileModelEvent),
}

/// The message of a write to a remote file, which this build cannot make.
pub open spec fn remote_unavailable_message(host_id: Seq<char>, path: Seq<char>) -> Seq<char> {
    "Remote file support is not available in this build: "@ + host_id + ":"@ + path
}

fn remote_unavailable(file_id: FileId, host_id: &String, path: &String) -> (e: FileModelEvent)
    ensures
        e matches FileModelEvent::FailedToSave { id, error: FileSaveError::RemoteError(m) }
            && id == file_id && m@ == remote_unavailable_message(host_id@, path@),
{
    let mut m = String::from_str("Remote file support is not available in this build: ");
    m.append(host_id.as_str());
    m.append(":");
    m.append(path.as_str());
    FileModelEvent::FailedToSave { id: file_id, error: FileSaveError::RemoteError(m) }
}

impl View for FileModel {
    type V = FileModelView;

    closed spec fn view(&self) -> FileModelView {
        FileModelView {
            files: self.files@,
            versions: self.versions@,
            next_file_id: self.next_file_id,
            next_version: self.next_version,
        }
    }
}

impl FileModel {
    /// Every id the model knows was handed out before the next one.
    #[verifier::type_invariant]
    closed spec fn ids_handed_out(self) -> bool {
        forall|k: u64| #[trigger] self.files@.contains_key(k) ==> k < self.next_file_id
    }

    /// A model that tracks no file.
    pub fn new() -> (m: Self)
        ensures
            m@.files == Map::<u64, FileBackend>::empty(),
            m@.versions == Map::<u64, ContentVersion>::empty(),
            m@.next_file_id == 0,
            m@.next_version == 0,
    {
        FileModel { files: HashMap::new(), versions: HashMap::new(), next_file_id: 0, next_version: 0 }
    }

    /// Whether another file can get a new id.
    pub fn can_register(&self) -> (b: bool)
        ensures
            b == (self@.next_file_id < u64::MAX),
    {
        self.next_file_id < u64::MAX
    }

    /// Whether another content version can be handed out.
    pub fn can_version(&self) -> (b: bool)
        ensures
            b == (self@.next_version < u64::MAX),
    {
        self.next_version < u64::MAX
    }

    /// The local path of a file; none for a remote or unknown one.
    pub fn file_path(&self, file_id: FileId) -> (p: Option<String>)
        ensures
            p == match self@.files.get(file_id.0) {
                Some(FileBackend::Local(path)) => Some(path),
                _ => None::<String>,
            },
    {
        match self.files.get(&file_id.0) {
            Some(FileBackend::Local(path)) => Some(path.clone()),
            _ => None,
        }
    }

    fn register(&mut self, backend: FileBackend) -> (id: FileId)
        requires
            old(self)@.next_file_id < u64::MAX,
        ensures
            id.0 == old(self)@.next_file_id,
            !old(self)@.files.contains_key(id.0),
            final(self)@ == (FileModelView {
                files: old(self)@.files.insert(id.0, backend),
                next_file_id: (old(self)@.next_file_id + 1) as u64,
                ..old(self)@
            }),
    {
        proof {
            use_type_invariant(&*self);
        }
        let id = self.next_file_id;
        self.next_file_id = id + 1;
        let mut files: HashMap<u64, FileBackend> = HashMap::new();
        std::mem::swap(&mut files, &mut self.files);
        files.insert(id, backend);
        self.files = files;
        FileId(id)
    }

    /// Tracks a file on a remote host under a new id.
    pub fn register_remote_file(&mut self, host_id: String, path: String) -> (id: FileId)
        requires
            old(self)@.next_file_id < u64::MAX,
        ensures
            id.0 == old(self)@.next_file_id,
            !old(self)@.files.contains_key(id.0),
            final(self)@ == (FileModelView {
                files: old(self)@.files.insert(id.0, FileBackend::Remote { host_id, path }),
                next_file_id: (old(self)@.next_file_id + 1) as u64,
                ..old(self)@
            }),
    {
        self.register(FileBackend::Remote { host_id, path })
    }

    /// Tracks a local file under a new id.
    pub fn register_file_path(&mut self, file_path: String, subscribe_to_updates: bool) -> (id: FileId)
        requires
            old(self)@.next_file_id < u64::MAX,
        ensures
            id.0 == old(self)@.next_file_id,
            !old(self)@.files.contains_key(id.0),
            final(self)@ == (FileModelView {
                files: old(self)@.files.insert(id.0, FileBackend::Local(file_path)),
                next_file_id: (old(self)@.next_file_id + 1) as u64,
                ..old(self)@
            }),
    {
        self.register(FileBackend::Local(file_path))
    }

    /// Tracks a local file under a new id; the caller then loads its content
    /// and reports the outcome with `finish_open`.
    pub fn open(&mut self, file_path: String, subscribe_to_updates: bool) -> (id: FileId)
        requires
            old(self)@.next_file_id < u64::MAX,
        ensures
            id.0 == old(self)@.next_file_id,
            !old(self)@.files.contains_key(id.0),
            final(self)@ == (FileModelView {
                files: old(self)@.files.insert(id.0, FileBackend::Local(file_path)),
                next_file_id: (old(self)@.next_file_id + 1) as u64,
                ..old(self)@
            }),
    {
        self.register(FileBackend::Local(file_path))
    }

    /// Records the outcome of loading an opened file: the content gets a new
    /// version and is reported loaded, or the failure is reported.
    pub fn finish_open(&mut self, file_id: FileId, load_result: Result<String, FileLoadError>) -> (e: FileModelEvent)
        requires
            old(self)@.next_version < u64::MAX,
        ensures
            match load_result {
                Ok(content) => {
                    let v = ContentVersion(old(self)@.next_version);
                    &&& final(self)@ == (FileModelView {
                        versions: old(self)@.versions.insert(file_id.0, v),
                        next_version: (old(self)@.next_version + 1) as u64,
                        ..old(self)@
                    })
                    &&& e == (FileModelEvent::FileLoaded { content, id: file_id, version: v })
                },
                Err(error) => final(self)@ == old(self)@ && e == (FileModelEvent::FailedToLoad { id: file_id, error }),
            },
    {
        match load_result {
            Ok(content) => {
                proof {
                    use_type_invariant(&*self);
                }
                let version = ContentVersion(self.next_version);
                self.next_version = self.next_version + 1;
                self.set_version(file_id, version);
                FileModelEvent::FileLoaded { content, id: file_id, version }
            },
            Err(error) => FileModelEvent::FailedToLoad { id: file_id, error },
        }
    }

    /// Stops loading a file; nothing is in flight in this model.
    pub fn cancel(&mut self, file_id: FileId)
        ensures
            final(self)@ == old(self)@,
    {
    }

    /// Forgets a file and its version.
    pub fn unsubscribe(&mut self, file_id: FileId)
        ensures
            final(self)@ == (FileModelView {
                files: old(self)@.files.remove(file_id.0),
                versions: old(self)@.versions.remove(file_id.0),
                ..old(self)@
            }),
    {
        proof {
            use_type_invariant(&*self);
        }
        let mut files: HashMap<u64, FileBackend> = HashMap::new();
        std::mem::swap(&mut files, &mut self.files);
        files.remove(&file_id.0);
        self.files = files;
        let mut versions: HashMap<u64, ContentVersion> = HashMap::new();
        std::mem::swap(&mut versions, &mut self.versions);
        versions.remove(&file_id.0);
        self.versions = versions;
    }

    /// What saving a file takes: writing its local path, or, for a remote
    /// file, a failure to report; an unknown file is an error.
    pub fn save(&mut self, file_id: FileId, content: String, version: ContentVersion) -> (r: Result<FileWriteStep, FileSaveError>)
        ensures
            final(self)@ == old(self)@,
            match old(self)@.files.get(file_id.0) {
                None => r == Err::<FileWriteStep, FileSaveError>(FileSaveError::NoFilePath(file_id)),
                Some(FileBackend::Local(path)) => r == Ok::<FileWriteStep, FileSaveError>(FileWriteStep::Write { path, content }),
                Some(FileBackend::Remote { host_id, path }) => r matches Ok(FileWriteStep::Rejected(
                    FileModelEvent::FailedToSave { id, error: FileSaveError::RemoteError(m) },
                )) && id == file_id && m@ == remote_unavailable_message(host_id@, path@),
            },
    {
        match self.files.get(&file_id.0) {
            None => Err(FileSaveError::NoFilePath(file_id)),
            Some(FileBackend::Local(path)) => Ok(FileWriteStep::Write { path: path.clone(), content }),
            Some(FileBackend::Remote { host_id, path }) => Ok(FileWriteStep::Rejected(remote_unavailable(file_id, host_id, path))),
        }
    }

    /// What renaming and saving a local file takes; the file is tracked at
    /// its new path from now on. A file without a local path is an error.
    pub fn rename_and_save(&mut self, file_id: FileId, new_path: String, content: String, version: ContentVersion)
        -> (r: Result<FileWriteStep, FileSaveError>)
        ensures
            match old(self)@.files.get(file_id.0) {
                Some(FileBackend::Local(path)) => {
                    &&& r == Ok::<FileWriteStep, FileSaveError>(FileWriteStep::RenameAndWrite { from: path, to: new_path, content })
                    &&& final(self)@ == (FileModelView { files: old(self)@.files.insert(file_id.0, FileBackend::Local(new_path)), ..old(self)@ })
                },
                _ => r == Err::<FileWriteStep, FileSaveError>(FileSaveError::NoFilePath(file_id)) && final(self)@ == old(self)@,
            },
    {
        proof {
            use_type_invariant(&*self);
        }
        let file_path = match self.file_path(file_id) {
            Some(p) => p,
            None => return Err(FileSaveError::NoFilePath(file_id)),
        };
        let mut files: HashMap<u64, FileBackend> = HashMap::new();
        std::mem::swap(&mut files, &mut self.files);
        files.insert(file_id.0, FileBackend::Local(new_path.clone()));
        self.files = files;
        Ok(FileWriteStep::RenameAndWrite { from: file_path, to: new_path, content })
    }

    /// What deleting a file takes: removing its local path, or, for a remote
    /// file, a failure to report; an unknown file is an error.
    pub fn delete(&mut self, file_id: FileId, version: ContentVersion) -> (r: Result<FileWriteStep, FileSaveError>)
        ensures
            final(self)@ == old(self)@,
            match old(self)@.files.get(file_id.0) {
                None => r == Err::<FileWriteStep, FileSaveError>(FileSaveError::NoFilePath(file_id)),
                Some(FileBackend::Local(path)) => r == Ok::<FileWriteStep, FileSaveError>(FileWriteStep::Remove { path }),
                Some(FileBackend::Remote { host_id, path }) => r matches Ok(FileWriteStep::Rejected(
                    FileModelEvent::FailedToSave { id, error: FileSaveError::RemoteError(m) },
                )) && id == file_id && m@ == remote_unavailable_message(host_id@, path@),
            },
    {
        match self.files.get(&file_id.0) {
            None => Err(FileSaveError::NoFilePath(file_id)),
            Some(FileBackend::Local(path)) => Ok(FileWriteStep::Remove { path: path.clone() }),
            Some(FileBackend::Remote { host_id, path }) => Ok(FileWriteStep::Rejected(remote_unavailable(file_id, host_id, path))),
        }
    }

    /// Records the version of a file's content.
    pub fn set_version(&mut self, file_id: FileId, version: ContentVersion)
        ensures
            final(self)@ == (FileModelView { versions: old(self)@.versions.insert(file_id.0, version), ..old(self)@ }),
    {
        proof {
            use_type_invariant(&*self);
        }
        let mut versions: HashMap<u64, ContentVersion> = HashMap::new();
        std::mem::swap(&mut versions, &mut self.versions);
        versions.insert(file_id.0, version);
        self.versions = versions;
    }

    /// The version last recorded for a file.
    pub fn version(&self, file_id: FileId) -> (v: Option<ContentVersion>)
        ensures
            v == self@.versions.get(file_id.0),
    {
        match self.versions.get(&file_id.0) {
            Some(v) => Some(*v),
            None => None,
        }
    }

    /// Records the outcome of a write: on success the version is recorded and
    /// the save reported, else the failure is reported.
    pub fn emit_save_result(&mut self, file_id: FileId, version: ContentVersion, result: Result<(), FileSaveError>)
        -> (e: FileModelEvent)
        ensures
            match result {
                Ok(_) => {
                    &&& final(self)@ == (FileModelView { versions: old(self)@.versions.insert(file_id.0, version), ..old(self)@ })
                    &&& e == (FileModelEvent::FileSaved { id: file_id, version })
                },
                Err(error) => final(self)@ == old(self)@ && e == (FileModelEvent::FailedToSave { id: file_id, error }),
            },
    {
        match result {
            Ok(()) => {
                self.set_version(file_id, version);
                FileModelEvent::FileSaved { id: file_id, version }
            },
            Err(error) => FileModelEvent::FailedToSave { id: file_id, error },
        }
    }
}

/// The total length of a sequence of byte strings.
pub open spec fn total_len(cs: Seq<Seq<u8>>) -> int
    decreases cs.len(),
{
    if cs.len() == 0 {
        0
    } else {
        cs[0].len() + total_len(cs.drop_first())
    }
}

/// A read never goes over its budget: the segments hold exactly the bytes
/// counted as read, and those are at most `max` (once the budget has been
/// started within it).
pub proof fn law_read_within_budget(ls: Seq<Seq<char>>, ranges: Seq<Range<usize>>, max: int, read: int)
    requires
        0 <= read,
    ensures
        bytes_read_after(ls, ranges, max, read) == read + total_len(segment_contents(ls, ranges, max, read)),
        read <= max ==> bytes_read_after(ls, ranges, max, read) <= max,
        forall|i: int| 0 <= i < segment_contents(ls, ranges, max, read).len()
            ==> #[trigger] segment_contents(ls, ranges, max, read)[i].len() <= max,
    decreases ranges.len(),
{
    if ranges.len() == 0 || read >= max {
    } else {
        let j = join_lines(range_lines(ls, ranges[0]));
        let c = cut_bytes(j, max - read);
        law_read_within_budget(ls, ranges.drop_first(), max, read + c.len());
        let rest = segment_contents(ls, ranges.drop_first(), max, read + c.len());
        assert((seq![c] + rest).drop_first() =~= rest);
        assert forall|i: int| 0 <= i < (seq![c] + rest).len() implies #[trigger] (seq![c] + rest)[i].len() <= max by {
            if i > 0 {
                assert((seq![c] + rest)[i] == rest[i - 1]);
            }
        }
    }
}

/// A file registered at a local path is found at that path, under an id that
/// no file had before.
pub proof fn law_registered_path_is_found(before: FileModelView, after: FileModelView, id: FileId, path: String)
    requires
        before.next_file_id < u64::MAX,
        id.0 == before.next_file_id,
        after == (FileModelView {
            files: before.files.insert(id.0, FileBackend::Local(path)),
            next_file_id: (before.next_file_id + 1) as u64,
            ..before
        }),
    ensures
        after.files.get(id.0) == Some(FileBackend::Local(path)),
        after.next_file_id > id.0,
{
}

/// The version recorded for a file is the one `version` then reads, and no
/// other file's version changes.
pub proof fn law_version_is_read_back(v: FileModelView, id: FileId, version: ContentVersion, other: FileId)
    ensures
        (FileModelView { versions: v.versions.insert(id.0, version), ..v }).versions.get(id.0) == Some(version),
        other.0 != id.0 ==> (FileModelView { versions: v.versions.insert(id.0, version), ..v }).versions.get(other.0)
            == v.versions.get(other.0),
{
}

/// A file that was unsubscribed has no path and no version any more.
pub proof fn law_unsubscribed_is_forgotten(v: FileModelView, id: FileId)
    ensures
        ({
            let w = FileModelView { files: v.files.remove(id.0), versions: v.versions.remove(id.0), ..v };
            &&& w.files.get(id.0) is None
            &&& w.versions.get(id.0) is None
        }),
{
}

/// A text has no more lines than characters.
pub proof fn lemma_line_count_bound(t: Seq<char>)
    ensures
        spec_lines(t).len() <= t.len(),
    decreases t.len(),
{
    if t.len() > 0 {
        let k = nl_index(t);
        if k < t.len() {
            lemma_line_count_bound(t.subrange(k as int + 1, t.len() as int));
        }
    }
}

/// With no range asked for, a read covers every line: when the whole text, its
/// lines joined by newlines, fits in the budget, the read gives one segment
/// holding all of it, counts all its bytes as read, and never has to cut.
pub proof fn law_no_range_reads_every_line(content: Seq<char>, max: usize)
    requires
        content.len() < usize::MAX,
        max > 0,
        utf8_bytes(join_lines(spec_lines(content))).len() <= max,
    ensures
        ({
            let ls = spec_lines(content);
            let all = utf8_bytes(join_lines(ls));
            let rs = effective_ranges(Seq::<Range<usize>>::empty());
            &&& cuts_on_boundaries(ls, rs, max as int, 0)
            &&& segment_contents(ls, rs, max as int, 0) == seq![all]
            &&& bytes_read_after(ls, rs, max as int, 0) == all.len()
        }),
{
    let ls = spec_lines(content);
    let all = utf8_bytes(join_lines(ls));
    let rs = effective_ranges(Seq::<Range<usize>>::empty());
    lemma_line_count_bound(content);
    assert(rs.len() == 1);
    assert(rs[0] == Range { start: 1usize, end: usize::MAX });
    assert(range_lines(ls, rs[0]) =~= ls);
    assert(cut_bytes(join_lines(ls), max as int) =~= all) by {
        if all.len() >= max {
            assert(all.subrange(0, max as int) =~= all);
        }
    }
    assert(rs.drop_first() =~= Seq::<Range<usize>>::empty());
    encode_utf8_valid_utf8(join_lines(ls));
    is_char_boundary_start_end_of_seq(all);
    let c = cut_bytes(join_lines(range_lines(ls, rs[0])), max as int);
    assert(c == all);
    let tail = rs.drop_first();
    assert(segment_contents(ls, tail, max as int, c.len() as int) == Seq::<Seq<u8>>::empty());
    assert(bytes_read_after(ls, tail, max as int, c.len() as int) == c.len());
    assert(cuts_on_boundaries(ls, tail, max as int, c.len() as int));
    assert(segment_contents(ls, rs, max as int, 0) == seq![c] + segment_contents(ls, tail, max as int, c.len() as int));
    assert(seq![c] + Seq::<Seq<u8>>::empty() =~= seq![all]);
    assert(bytes_read_after(ls, rs, max as int, 0) == bytes_read_after(ls, tail, max as int, c.len() as int));
    assert(utf8_bytes(join_lines(range_lines(ls, rs[0]))).len() >= max - 0
        ==> is_char_boundary(utf8_bytes(join_lines(range_lines(ls, rs[0]))), max - 0));
}

/// The lines picked by number are exactly the wanted ones, in the order of
/// the text: each picked pair is a line's zero-based number and that line,
/// the numbers rise, and each line below `upto` is picked exactly when its
/// number is wanted.
pub proof fn lemma_wanted_lines(ls: Seq<Seq<char>>, wanted: Set<usize>, upto: int)
    requires
        0 <= upto <= ls.len(),
        ls.len() <= usize::MAX,
    ensures
        ({
            let out = wanted_lines(ls, wanted, upto);
            &&& forall|j: int| 0 <= j < out.len() ==> {
                &&& (#[trigger] out[j]).0 < upto
                &&& wanted.contains(out[j].0)
                &&& out[j].1 == ls[out[j].0 as int]
            }
            &&& forall|a: int, b: int| 0 <= a < b < out.len() ==> (#[trigger] out[a]).0 < (#[trigger] out[b]).0
            &&& forall|i: int| 0 <= i < upto ==> (out.contains((i as usize, ls[i])) <==> #[trigger] wanted.contains(i as usize))
        }),
    decreases upto,
{
    if upto > 0 {
        lemma_wanted_lines(ls, wanted, upto - 1);
        let prev = wanted_lines(ls, wanted, upto - 1);
        let out = wanted_lines(ls, wanted, upto);
        assert forall|i: int| 0 <= i < upto implies (out.contains((i as usize, ls[i])) <==> #[trigger] wanted.contains(i as usize)) by {
            if i < upto - 1 {
                if out.contains((i as usize, ls[i])) {
                    let j = choose|j: int| 0 <= j < out.len() && out[j] == (i as usize, ls[i]);
                    if wanted.contains((upto - 1) as usize) && j == prev.len() {
                        assert(out[j].0 == (upto - 1) as usize);
                    } else {
                        assert(prev[j] == out[j]);
                    }
                }
                if wanted.contains(i as usize) {
                    let j = choose|j: int| 0 <= j < prev.len() && prev[j] == (i as usize, ls[i]);
                    assert(out[j] == prev[j]);
                }
            } else {
                if wanted.contains(i as usize) {
                    assert(out[prev.len() as int] == (i as usize, ls[i]));
                }
                if out.contains((i as usize, ls[i])) {
                    let j = choose|j: int| 0 <= j < out.len() && out[j] == (i as usize, ls[i]);
                    if !wanted.contains((upto - 1) as usize) {
                        assert(prev[j] == out[j]);
                        assert(prev[j].0 < upto - 1);
                    }
                }
            }
        }
    }
}

/// Reading lines by number gives, for every line of the text, the pair of its
/// zero-based number and the line exactly when that number was asked for, and
/// nothing else: every pair is a wanted number with its line, in rising order.
pub proof fn law_requested_lines_are_the_wanted_ones(content: Seq<char>, line_numbers: Seq<usize>)
    requires
        content.len() < usize::MAX,
    ensures
        ({
            let ls = spec_lines(content);
            let out = wanted_lines(ls, line_numbers.to_set(), ls.len() as int);
            &&& forall|i: int| 0 <= i < ls.len() ==>
                (out.contains((i as usize, ls[i])) <==> #[trigger] line_numbers.contains(i as usize))
            &&& forall|j: int| 0 <= j < out.len() ==> {
                &&& (#[trigger] out[j]).0 < ls.len()
                &&& line_numbers.contains(out[j].0)
                &&& out[j].1 == ls[out[j].0 as int]
            }
            &&& forall|a: int, b: int| 0 <= a < b < out.len() ==> (#[trigger] out[a]).0 < (#[trigger] out[b]).0
        }),
{
    let ls = spec_lines(content);
    lemma_line_count_bound(content);
    lemma_wanted_lines(ls, line_numbers.to_set(), ls.len() as int);
    let out = wanted_lines(ls, line_numbers.to_set(), ls.len() as int);
    assert forall|i: int| 0 <= i < ls.len() implies
        (out.contains((i as usize, ls[i])) <==> #[trigger] line_numbers.contains(i as usize)) by {
        assert(line_numbers.to_set().contains(i as usize) == line_numbers.contains(i as usize));
    }
    assert forall|j: int| 0 <= j < out.len() implies line_numbers.contains((#[trigger] out[j]).0) by {
        assert(line_numbers.to_set().contains(out[j].0));
    }
}

} // verus!
