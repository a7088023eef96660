//! The editor pieces this build keeps: line counts, edit origins, the empty
//! buffer, asset sources, indentation units and the image markdown format.
use vstd::prelude::*;

verus! {

/// A number of lines.
#[derive(Clone, Copy, Debug, Default, PartialEq, Eq, Structural, PartialOrd, Ord, Hash)]
pub struct LineCount(pub usize);

impl LineCount {
    pub fn as_usize(self) -> (n: usize)
        ensures
            n == self.0,
    {
        self.0
    }

    /// The count as a `u32`, keeping its low 32 bits as `as` does.
    pub fn as_u32(self) -> (n: u32)
        ensures
            n == self.0 as u32,
    {
        self.0 as u32
    }

    /// The difference, or zero when `rhs` is larger.
    pub fn saturating_sub(self, rhs: &Self) -> (d: Self)
        ensures
            d.0 == if self.0 >= rhs.0 { self.0 - rhs.0 } else { 0 },
    {
        if self.0 >= rhs.0 {
            LineCount(self.0 - rhs.0)
        } else {
            LineCount(0)
        }
    }
}

impl From<usize> for LineCount {
    fn from(value: usize) -> (c: Self) {
        LineCount(value)
    }
}

impl vstd::std_specs::convert::FromSpecImpl<usize> for LineCount {
    open spec fn obeys_from_spec() -> bool {
        true
    }

    open spec fn from_spec(v: usize) -> LineCount {
        LineCount(v)
    }
}

impl std::ops::Add for LineCount {
    type Output = Self;

    fn add(self, rhs: Self) -> (c: Self) {
        LineCount(self.0 + rhs.0)
    }
}

impl vstd::std_specs::ops::AddSpecImpl for LineCount {
    open spec fn obeys_add_spec() -> bool {
        true
    }

    /// The sum must fit in `usize`; the standard addition panics otherwise.
    open spec fn add_req(self, rhs: LineCount) -> bool {
        self.0 + rhs.0 <= usize::MAX
    }

    open spec fn add_spec(self, rhs: LineCount) -> LineCount {
        LineCount((self.0 + rhs.0) as usize)
    }
}

impl std::ops::Sub for LineCount {
    type Output = Self;

    fn sub(self, rhs: Self) -> (c: Self) {
        LineCount(self.0 - rhs.0)
    }
}

impl vstd::std_specs::ops::SubSpecImpl for LineCount {
    open spec fn obeys_sub_spec() -> bool {
        true
    }

    /// `rhs` must not be larger; the standard subtraction panics otherwise.
    open spec fn sub_req(self, rhs: LineCount) -> bool {
        rhs.0 <= self.0
    }

    open spec fn sub_spec(self, rhs: LineCount) -> LineCount {
        LineCount((self.0 - rhs.0) as usize)
    }
}

/// A key that moves the cursor or the selection.
#[derive(Debug, Clone, Copy, PartialEq, Eq, Hash)]
pub enum NavigationKey {
    Up,
    Down,
    Left,
    Right,
    PageUp,
    PageDown,
    Tab,
    ShiftTab,
}

/// Where an edit came from.
#[derive(Debug, Clone, Copy, PartialEq, Eq)]
pub enum EditOrigin {
    UserTyped,
    UserInitiated,
    SystemEdit,
    SyncedTerminalInput,
    RemoteEdit,
}

impl EditOrigin {
    /// Whether the user made the edit: typed it or started it.
    pub fn from_user(&self) -> (b: bool)
        ensures
            b == (*self is UserTyped || *self is UserInitiated),
    {
        match self {
            EditOrigin::UserTyped | EditOrigin::UserInitiated => true,
            _ => false,
        }
    }
}

/// A character offset into a buffer.
#[derive(Debug, Clone, Copy, PartialEq, Eq, Structural, Hash, Default)]
pub struct CharOffset(pub usize);

/// How markdown is written out.
#[derive(Clone, Copy)]
pub enum MarkdownStyle {
    Internal,
    Export { should_not_escape_markdown_punctuation: bool },
}

/// The editor buffer; in this build it holds no text.
#[derive(Clone, Debug, Default)]
pub struct Buffer;

/// A view of a buffer at one version.
#[derive(Clone, Debug, Default)]
pub struct BufferSnapshot;

/// The text a buffer starts with.
#[derive(Clone, Debug, Default)]
pub struct InitialBufferState {
    pub text: String,
}

impl InitialBufferState {
    /// A buffer that starts with the plain text.
    pub fn plain_text(text: &str) -> (s: Self)
        ensures
            s.text@ == text@,
    {
        InitialBufferState { text: String::from_str(text) }
    }
}

/// The word boundaries found from an offset; in this build at most one.
#[derive(Default)]
pub struct WordBoundaryIter(pub Option<CharOffset>);

/// How words are told apart.
#[derive(Clone, Debug, Default)]
pub struct WordBoundariesPolicy;

impl WordBoundaryIter {
    pub fn with_policy(self, policy: &WordBoundariesPolicy) -> (s: Self)
        ensures
            s == self,
    {
        self
    }

    /// The next boundary; there is none after it.
    pub fn next(&mut self) -> (r: Option<CharOffset>)
        ensures
            r == old(self).0,
            final(self).0 is None,
    {
        self.0.take()
    }
}

impl Buffer {
    /// The buffer written out as markdown: empty in this build.
    pub fn export_to_markdown<T>(parsed: T, style: MarkdownStyle) -> (s: String)
        ensures
            s@.len() == 0,
    {
        String::new()
    }

    /// The characters from an offset on: none in this build.
    pub fn chars_at(&self, offset: CharOffset) -> (r: Result<Vec<char>, ()>)
        ensures
            r matches Ok(v) && v@.len() == 0,
    {
        Ok(Vec::new())
    }

    /// Word starts going back from an offset: none in this build.
    pub fn word_starts_backward_from_offset_inclusive(&self, point: CharOffset) -> (r: Result<WordBoundaryIter, ()>)
        ensures
            r matches Ok(it) && it.0 is None,
    {
        Ok(WordBoundaryIter(None))
    }

    /// Word ends going forward from an offset: none in this build.
    pub fn word_ends_from_offset_exclusive(&self, point: CharOffset) -> (r: Result<WordBoundaryIter, ()>)
        ensures
            r matches Ok(it) && it.0 is None,
    {
        Ok(WordBoundaryIter(None))
    }
}

/// Turns a position into a character offset of the buffer.
pub trait ToBufferCharOffset {
    fn to_buffer_char_offset(self, buffer: &Buffer) -> CharOffset;
}

/// Turns a position into a point of the buffer.
pub trait ToBufferPoint {
    fn to_buffer_point(self, buffer: &Buffer) -> CharOffset;
}

impl ToBufferCharOffset for CharOffset {
    fn to_buffer_char_offset(self, buffer: &Buffer) -> (o: CharOffset)
        ensures
            o == self,
    {
        self
    }
}

impl ToBufferPoint for CharOffset {
    fn to_buffer_point(self, buffer: &Buffer) -> (o: CharOffset)
        ensures
            o == self,
    {
        self
    }
}

/// A change to a buffer, in offsets.
#[derive(Clone, Debug, Default)]
pub struct PreciseDelta;

/// Where an image or diagram is loaded from.
#[derive(Clone, Debug, PartialEq, Eq)]
pub enum AssetSource {
    LocalFile { path: String },
    Raw { id: String },
}

/// The text of `Path::new(directory).join(source)`, by the path rules of the
/// platform the library is built for.
pub uninterp spec fn joined_path(directory: Seq<char>, source: Seq<char>) -> Seq<char>;

/// `Path::join` followed by `to_string_lossy` (lossless here, as both parts are
/// UTF-8): the source taken relative to the directory. Claimed: the text is
/// `joined_path(directory, source)`; which separator is added, and when the
/// source replaces the directory, the name leaves to the platform's rules.
#[verifier::external_body]
fn join_path_lossy(directory: &str, source: &str) -> (joined: String)
    ensures
        joined@ == joined_path(directory@, source@),
{
    std::path::Path::new(directory).join(source).to_string_lossy().to_string()
}

/// The local file an image source names: relative to the working directory
/// when there is one, else the source as it stands.
pub fn resolve_asset_source_relative_to_directory(source: &str, current_working_directory: Option<&str>) -> (a: AssetSource)
    ensures
        a is LocalFile,
        current_working_directory is None ==> a->path@ == source@,
        current_working_directory matches Some(cwd) ==> a->path@ == joined_path(cwd@, source@),
{
    let path = match current_working_directory {
        Some(cwd) => join_path_lossy(cwd, source),
        None => String::from_str(source),
    };
    AssetSource::LocalFile { path }
}

/// The asset of a mermaid diagram: its source, as a raw asset id.
pub fn mermaid_asset_source(source: &str) -> (a: AssetSource)
    ensures
        a matches AssetSource::Raw { id } && id@ == source@,
{
    AssetSource::Raw { id: String::from_str(source) }
}

/// One level of indentation.
#[derive(Clone, Copy, Debug, PartialEq, Eq)]
pub enum IndentUnit {
    Space(usize),
    Tab,
}

/// What the tab key does.
#[derive(Clone, Debug)]
pub enum IndentBehavior {
    Ignore,
    TabIndent(IndentUnit),
}

/// A title with every backslash and double quote escaped by a backslash.
pub open spec fn escape_title(t: Seq<char>) -> Seq<char>
    decreases t.len(),
{
    if t.len() == 0 {
        seq![]
    } else {
        let c = t.last();
        escape_title(t.drop_last()) + if c == '\\' {
            seq!['\\', '\\']
        } else if c == '"' {
            seq!['\\', '"']
        } else {
            seq![c]
        }
    }
}

fn escaped_title(title: &str) -> (s: String)
    ensures
        s@ == escape_title(title@),
{
    let cs = crate::text::chars_of(title);
    let mut s = String::new();
    let mut i: usize = 0;
    while i < cs.len()
        invariant
            i <= cs@.len(),
            cs@ == title@,
            s@ == escape_title(cs@.subrange(0, i as int)),
        decreases cs@.len() - i,
    {
        let c = cs[i];
        proof {
            assert(cs@.subrange(0, i + 1).drop_last() =~= cs@.subrange(0, i as int));
        }
        if c == '\\' {
            crate::text::string_push(&mut s, '\\');
            crate::text::string_push(&mut s, '\\');
        } else if c == '"' {
            crate::text::string_push(&mut s, '\\');
            crate::text::string_push(&mut s, '"');
        } else {
            crate::text::string_push(&mut s, c);
        }
        proof {
            let e = if c == '\\' { seq!['\\', '\\'] } else if c == '"' { seq!['\\', '"'] } else { seq![c] };
            assert(s@ =~= escape_title(cs@.subrange(0, i as int)) + e);
        }
        i = i + 1;
    }
    proof {
        assert(cs@.subrange(0, cs@.len() as int) =~= cs@);
    }
    s
}

/// The markdown of an image: `![alt](source)`, with ` "title"` after the
/// source when the title is not empty, its backslashes and quotes escaped.
pub open spec fn image_markdown(alt_text: Seq<char>, source: Seq<char>, title: Option<Seq<char>>) -> Seq<char> {
    match title {
        Some(t) if t.len() > 0 => "!["@ + alt_text + "]("@ + source + " \""@ + escape_title(t) + "\")"@,
        _ => "!["@ + alt_text + "]("@ + source + ")"@,
    }
}

/// Formats an image as markdown (see `image_markdown`).
pub fn format_image_markdown(alt_text: &str, source: &str, title: Option<&str>) -> (s: String)
    ensures
        s@ == image_markdown(alt_text@, source@, match title {
            Some(t) => Some(t@),
            None => None,
        }),
{
    let mut s = String::from_str("![");
    s.append(alt_text);
    s.append("](");
    s.append(source);
    match title {
        Some(t) if !t.is_empty() => {
            let escaped = escaped_title(t);
            s.append(" \"");
            s.append(escaped.as_str());
            s.append("\")");
        },
        _ => {
            s.append(")");
        },
    }
    s
}

/// A version of a buffer's content.
#[derive(Clone, Copy, Debug, Default, PartialEq, Eq, Hash)]
pub struct BufferVersion(pub u64);

/// A layer that draws decorations over a buffer and follows its edits.
pub trait DecorationLayer {
    fn update_internal_state_with_delta(&mut self, deltas: &[PreciseDelta], content_version: BufferVersion, content: BufferSnapshot);
}

/// The rich text editor's model; empty in this build.
#[derive(Clone, Debug, Default)]
pub struct RichTextEditorModel;

/// How an editor grows vertically.
#[derive(Clone, Copy, Debug, PartialEq, Eq)]
pub enum VerticalExpansionBehavior {
    InfiniteHeight,
    GrowToMaxHeight,
}

/// A colour as red, green, blue and alpha bytes.
#[derive(Clone, Copy, Debug, PartialEq, Eq)]
pub struct Rgba {
    pub r: u8,
    pub g: u8,
    pub b: u8,
    pub a: u8,
}

/// How inline code is drawn.
#[derive(Clone, Copy, Debug)]
pub struct InlineCodeStyle {
    pub background: Rgba,
    pub font_color: Rgba,
}

/// The styles of rich text.
#[derive(Clone, Debug)]
pub struct RichTextStyles {
    pub inline_code_style: InlineCodeStyle,
}

impl Default for RichTextStyles {
    /// Inline code on a transparent background, in opaque black.
    fn default() -> (s: Self)
        ensures
            s.inline_code_style.background == (Rgba { r: 0, g: 0, b: 0, a: 0 }),
            s.inline_code_style.font_color == (Rgba { r: 0, g: 0, b: 0, a: 255 }),
    {
        RichTextStyles {
            inline_code_style: InlineCodeStyle {
                background: Rgba { r: 0, g: 0, b: 0, a: 0 },
                font_color: Rgba { r: 0, g: 0, b: 0, a: 255 },
            },
        }
    }
}

/// A unit of text that a selection grows by.
#[derive(Clone, Debug)]
pub enum TextUnit<T> {
    Word(T),
}

/// The colours of each kind of syntax.
#[derive(Clone, Copy)]
pub struct ColorMap {
    pub keyword_color: Rgba,
    pub function_color: Rgba,
    pub string_color: Rgba,
    pub type_color: Rgba,
    pub number_color: Rgba,
    pub comment_color: Rgba,
    pub property_color: Rgba,
    pub tag_color: Rgba,
}

/// What a decoration layer tells its observers.
pub enum DecorationStateEvent {
    DecorationUpdated { version: BufferVersion },
}

/// How much a line is indented relative to the previous one.
#[derive(Debug)]
pub struct IndentDelta {
    pub delta: u8,
}

/// What the editor needs of a language: its indentation, its bracket pairs
/// and the prefix of its line comments.
#[derive(Clone, Debug)]
pub struct Language {
    pub indent_unit: IndentUnit,
    pub bracket_pairs: Vec<(char, char)>,
    pub comment_prefix: Option<String>,
}

/// A position in a buffer, by row and column.
#[derive(Clone, Copy, Debug, PartialEq, Eq)]
pub struct Point {
    pub row: u32,
    pub column: u32,
}

/// The syntax state of a buffer: without a parser in this build it keeps only
/// what the language says of indentation, brackets and comments.
pub struct SyntaxTreeState {
    pub indent_unit: Option<IndentUnit>,
    pub bracket_pairs: Vec<(char, char)>,
    pub comment_prefix: Option<String>,
}

impl SyntaxTreeState {
    /// A state that knows no language yet.
    pub fn new(buffer_version: BufferVersion, color_map: ColorMap) -> (s: Self)
        ensures
            s.indent_unit is None,
            s.bracket_pairs@.len() == 0,
            s.comment_prefix is None,
    {
        SyntaxTreeState { indent_unit: None, bracket_pairs: Vec::new(), comment_prefix: None }
    }

    /// Takes the language's indentation, brackets and comment prefix.
    pub fn set_language(&mut self, language: &Language)
        ensures
            final(self).indent_unit == Some(language.indent_unit),
            final(self).bracket_pairs@ == language.bracket_pairs@,
            final(self).comment_prefix == language.comment_prefix,
    {
        self.indent_unit = Some(language.indent_unit);
        let mut pairs: Vec<(char, char)> = Vec::new();
        let mut i: usize = 0;
        while i < language.bracket_pairs.len()
            invariant
                i <= language.bracket_pairs@.len(),
                pairs@ == language.bracket_pairs@.subrange(0, i as int),
            decreases language.bracket_pairs@.len() - i,
        {
            pairs.push(language.bracket_pairs[i]);
            proof {
                assert(pairs@ =~= language.bracket_pairs@.subrange(0, i + 1));
            }
            i = i + 1;
        }
        proof {
            assert(language.bracket_pairs@.subrange(0, language.bracket_pairs@.len() as int) =~= language.bracket_pairs@);
        }
        self.bracket_pairs = pairs;
        self.comment_prefix = match &language.comment_prefix {
            Some(p) => Some(p.clone()),
            None => None,
        };
    }

    pub fn has_supported_highlighting(&self) -> (b: bool)
        ensures
            !b,
    {
        false
    }

    pub fn indent_unit(&self) -> (u: Option<IndentUnit>)
        ensures
            u == self.indent_unit,
    {
        self.indent_unit
    }

    pub fn bracket_pairs(&self) -> (p: Option<&[(char, char)]>)
        ensures
            p matches Some(s) && s@ == self.bracket_pairs@,
    {
        Some(self.bracket_pairs.as_slice())
    }

    pub fn comment_prefix(&self) -> (p: Option<&str>)
        ensures
            match self.comment_prefix {
                Some(c) => p matches Some(s) && s@ == c@,
                None => p is None,
            },
    {
        match &self.comment_prefix {
            Some(c) => Some(c.as_str()),
            None => None,
        }
    }

    /// The highlights of the ranges: none without a parser.
    pub fn highlights_in_ranges(&self, ranges: &[std::ops::Range<usize>], render_content_version: Option<BufferVersion>)
        -> (h: Option<Vec<(std::ops::Range<usize>, Rgba)>>)
        ensures
            h is None,
    {
        None
    }

    /// The indentation at a point: unknown without a parser.
    pub fn indentation_at_point(&self, point: Point) -> (d: Option<IndentDelta>)
        ensures
            d is None,
    {
        None
    }

    pub fn set_color_map(&mut self, color_map: ColorMap)
        ensures
            final(self).indent_unit == old(self).indent_unit,
            final(self).bracket_pairs@ == old(self).bracket_pairs@,
            final(self).comment_prefix == old(self).comment_prefix,
    {
    }
}

impl DecorationLayer for SyntaxTreeState {
    fn update_internal_state_with_delta(&mut self, deltas: &[PreciseDelta], content_version: BufferVersion, content: BufferSnapshot) {
    }
}

} // verus!
