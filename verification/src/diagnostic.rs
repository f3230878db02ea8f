//! Diagnostics and their text and JSON renderings, for one source file or for
//! a map of several.

use vstd::prelude::*;
use crate::ast::{Span};
use crate::text::{
    cat2, cat3, cat5, chars_before, chars_of, digit, extend, nat_text, push_char, slice_chars,
    text, text_of,
};

verus! {

broadcast use {crate::text::group_text_views};

/// A message about a place in the source.
#[derive(Clone, Debug, PartialEq)]
pub struct Diagnostic {
    pub span: Span,
    pub message: String,
    /// Secondary places with short notes, rendered after the primary one in
    /// the same form.
    pub related: Vec<(Span, String)>,
}

/// The mathematical content of a [`Diagnostic`].
pub struct DiagnosticView {
    pub span: Span,
    pub message: Seq<char>,
    pub related: Seq<(Span, Seq<char>)>,
}

pub open spec fn diagnostic_view(x: Diagnostic) -> DiagnosticView
{
    DiagnosticView {
        span: x.span,
        message: x.message@,
        related: notes_view(x.related@),
    }
}

impl View for Diagnostic {
    type V = DiagnosticView;

    open spec fn view(&self) -> DiagnosticView {
        diagnostic_view(*self)
    }
}

impl Diagnostic {
    /// A copy with the same content.
    pub fn dup(&self) -> (r: Self)
        ensures
            r@ == self@,
    {
        Diagnostic {
            span: self.span,
            message: self.message.clone(),
            related: dup_notes(&self.related),
        }
    }
}

/// One source file of a [`FileMap`].
#[derive(Clone, Debug, PartialEq)]
pub struct FileEntry {
    pub path: String,
    pub source: String,
    /// Byte offset in the concatenated buffer where this file starts.
    pub start: usize,
}

/// The mathematical content of a [`FileEntry`].
pub struct FileEntryView {
    pub path: Seq<char>,
    pub source: Seq<char>,
    pub start: usize,
}

pub open spec fn file_entry_view(x: FileEntry) -> FileEntryView
{
    FileEntryView {
        path: x.path@,
        source: x.source@,
        start: x.start,
    }
}

impl View for FileEntry {
    type V = FileEntryView;

    open spec fn view(&self) -> FileEntryView {
        file_entry_view(*self)
    }
}

impl FileEntry {
    /// A copy with the same content.
    pub fn dup(&self) -> (r: Self)
        ensures
            r@ == self@,
    {
        FileEntry {
            path: self.path.clone(),
            source: self.source.clone(),
            start: self.start,
        }
    }
}

pub open spec fn diagnostics_view(s: Seq<Diagnostic>) -> Seq<DiagnosticView>
{
    Seq::new(s.len(), |i: int| diagnostic_view(s[i]))
}

pub broadcast proof fn diagnostics_view_push(s: Seq<Diagnostic>, x: Diagnostic)
    ensures
        #[trigger] diagnostics_view(s.push(x)) == diagnostics_view(s).push(diagnostic_view(x)),
{
    assert(diagnostics_view(s.push(x)) =~= diagnostics_view(s).push(diagnostic_view(x)));
}

pub broadcast proof fn diagnostics_view_empty(s: Seq<Diagnostic>)
    requires
        s.len() == 0,
    ensures
        #[trigger] diagnostics_view(s) == Seq::<DiagnosticView>::empty(),
{
    assert(diagnostics_view(s) =~= Seq::<DiagnosticView>::empty());
}

pub broadcast proof fn diagnostics_view_add(a: Seq<Diagnostic>, b: Seq<Diagnostic>)
    ensures
        #[trigger] diagnostics_view(a + b) == diagnostics_view(a) + diagnostics_view(b),
{
    assert(diagnostics_view(a + b) =~= diagnostics_view(a) + diagnostics_view(b));
}

pub broadcast proof fn diagnostics_view_subrange(s: Seq<Diagnostic>, a: int, b: int)
    requires
        0 <= a <= b <= s.len(),
    ensures
        #[trigger] diagnostics_view(s.subrange(a, b)) == diagnostics_view(s).subrange(a, b),
{
    assert(diagnostics_view(s.subrange(a, b)) =~= diagnostics_view(s).subrange(a, b));
}

pub broadcast proof fn diagnostics_view_update(s: Seq<Diagnostic>, i: int, x: Diagnostic)
    requires
        0 <= i < s.len(),
    ensures
        #[trigger] diagnostics_view(s.update(i, x)) == diagnostics_view(s).update(i, diagnostic_view(x)),
{
    assert(diagnostics_view(s.update(i, x)) =~= diagnostics_view(s).update(i, diagnostic_view(x)));
}

pub fn dup_diagnostics(v: &Vec<Diagnostic>) -> (r: Vec<Diagnostic>)
    ensures
        diagnostics_view(r@) == diagnostics_view(v@),
{
    let mut r: Vec<Diagnostic> = Vec::new();
    let mut i: usize = 0;
    while i < v.len()
        invariant
            i <= v.len(),
            r.len() == i,
            forall|j: int| 0 <= j < i ==> #[trigger] diagnostics_view(r@)[j] == diagnostics_view(v@)[j],
        decreases v.len() - i,
    {
        let ghost before = r@;
        let x = &v[i];
        r.push(x.dup());
        proof {
            diagnostics_view_push(before, r@.last());
        }
        i += 1;
    }
    assert(diagnostics_view(r@) =~= diagnostics_view(v@));
    r
}

pub open spec fn notes_view(s: Seq<(Span, String)>) -> Seq<(Span, Seq<char>)>
{
    Seq::new(s.len(), |i: int| (s[i].0, s[i].1@))
}

pub broadcast proof fn notes_view_push(s: Seq<(Span, String)>, x: (Span, String))
    ensures
        #[trigger] notes_view(s.push(x)) == notes_view(s).push((x.0, x.1@)),
{
    assert(notes_view(s.push(x)) =~= notes_view(s).push((x.0, x.1@)));
}

pub broadcast proof fn notes_view_empty(s: Seq<(Span, String)>)
    requires
        s.len() == 0,
    ensures
        #[trigger] notes_view(s) == Seq::<(Span, Seq<char>)>::empty(),
{
    assert(notes_view(s) =~= Seq::<(Span, Seq<char>)>::empty());
}

pub broadcast proof fn notes_view_add(a: Seq<(Span, String)>, b: Seq<(Span, String)>)
    ensures
        #[trigger] notes_view(a + b) == notes_view(a) + notes_view(b),
{
    assert(notes_view(a + b) =~= notes_view(a) + notes_view(b));
}

pub broadcast proof fn notes_view_subrange(s: Seq<(Span, String)>, a: int, b: int)
    requires
        0 <= a <= b <= s.len(),
    ensures
        #[trigger] notes_view(s.subrange(a, b)) == notes_view(s).subrange(a, b),
{
    assert(notes_view(s.subrange(a, b)) =~= notes_view(s).subrange(a, b));
}

pub broadcast proof fn notes_view_update(s: Seq<(Span, String)>, i: int, x: (Span, String))
    requires
        0 <= i < s.len(),
    ensures
        #[trigger] notes_view(s.update(i, x)) == notes_view(s).update(i, (x.0, x.1@)),
{
    assert(notes_view(s.update(i, x)) =~= notes_view(s).update(i, (x.0, x.1@)));
}

pub fn dup_notes(v: &Vec<(Span, String)>) -> (r: Vec<(Span, String)>)
    ensures
        notes_view(r@) == notes_view(v@),
{
    let mut r: Vec<(Span, String)> = Vec::new();
    let mut i: usize = 0;
    while i < v.len()
        invariant
            i <= v.len(),
            r.len() == i,
            forall|j: int| 0 <= j < i ==> #[trigger] notes_view(r@)[j] == notes_view(v@)[j],
        decreases v.len() - i,
    {
        let ghost before = r@;
        let x = &v[i];
        r.push((x.0, x.1.clone()));
        proof {
            notes_view_push(before, r@.last());
        }
        i += 1;
    }
    assert(notes_view(r@) =~= notes_view(v@));
    r
}

pub open spec fn entries_view(s: Seq<FileEntry>) -> Seq<FileEntryView>
{
    Seq::new(s.len(), |i: int| file_entry_view(s[i]))
}

pub broadcast proof fn entries_view_push(s: Seq<FileEntry>, x: FileEntry)
    ensures
        #[trigger] entries_view(s.push(x)) == entries_view(s).push(file_entry_view(x)),
{
    assert(entries_view(s.push(x)) =~= entries_view(s).push(file_entry_view(x)));
}

pub broadcast proof fn entries_view_empty(s: Seq<FileEntry>)
    requires
        s.len() == 0,
    ensures
        #[trigger] entries_view(s) == Seq::<FileEntryView>::empty(),
{
    assert(entries_view(s) =~= Seq::<FileEntryView>::empty());
}

pub broadcast proof fn entries_view_add(a: Seq<FileEntry>, b: Seq<FileEntry>)
    ensures
        #[trigger] entries_view(a + b) == entries_view(a) + entries_view(b),
{
    assert(entries_view(a + b) =~= entries_view(a) + entries_view(b));
}

pub broadcast proof fn entries_view_subrange(s: Seq<FileEntry>, a: int, b: int)
    requires
        0 <= a <= b <= s.len(),
    ensures
        #[trigger] entries_view(s.subrange(a, b)) == entries_view(s).subrange(a, b),
{
    assert(entries_view(s.subrange(a, b)) =~= entries_view(s).subrange(a, b));
}

pub broadcast proof fn entries_view_update(s: Seq<FileEntry>, i: int, x: FileEntry)
    requires
        0 <= i < s.len(),
    ensures
        #[trigger] entries_view(s.update(i, x)) == entries_view(s).update(i, file_entry_view(x)),
{
    assert(entries_view(s.update(i, x)) =~= entries_view(s).update(i, file_entry_view(x)));
}

impl Diagnostic {
    pub fn new(span: Span, message: String) -> (r: Diagnostic)
        ensures
            r@ == (DiagnosticView { span, message: message@, related: Seq::empty() }),
    {
        let related: Vec<(Span, String)> = Vec::new();
        proof {
            notes_view_empty(related@);
        }
        Diagnostic { span, message, related }
    }

    pub fn with_related(self, span: Span, note: String) -> (r: Diagnostic)
        ensures
            r@ == (DiagnosticView { related: self@.related.push((span, note@)), ..self@ }),
    {
        let mut related = self.related;
        let ghost before = related@;
        related.push((span, note));
        proof {
            notes_view_push(before, (span, note));
        }
        Diagnostic { span: self.span, message: self.message, related }
    }
}

/// The number of line breaks in a text.
pub open spec fn breaks(s: Seq<char>) -> int
    decreases s.len(),
{
    if s.len() == 0 {
        0
    } else {
        breaks(s.drop_last()) + if s.last() == '\n' {
            1int
        } else {
            0
        }
    }
}

/// Where the line that holds position `p` starts.
pub open spec fn line_start_of(s: Seq<char>, p: int) -> int
    decreases p,
{
    if p <= 0 || s[p - 1] == '\n' {
        p
    } else {
        line_start_of(s, p - 1)
    }
}

/// The first line break at or after position `p`, or the end of the text.
pub open spec fn line_end_of(s: Seq<char>, p: int) -> int
    decreases s.len() - p,
{
    if p >= s.len() || s[p] == '\n' {
        p
    } else {
        line_end_of(s, p + 1)
    }
}

/// A position in a text by line and column, both counted from one, with the
/// extent of its line. Positions count characters.
#[derive(Clone, Copy, PartialEq, Eq, Structural, Debug)]
pub struct LineInfo {
    pub line: u128,
    pub column: u128,
    pub line_start: usize,
    pub line_end: usize,
    pub at: usize,
}

/// Where the byte offset `offset` of `s` falls.
pub open spec fn line_info_spec(s: Seq<char>, offset: int) -> LineInfo {
    let at = crate::text::chars_before_spec(s, offset);
    let line_start = line_start_of(s, at);
    LineInfo {
        line: (1 + breaks(s.subrange(0, at))) as u128,
        column: (at - line_start + 1) as u128,
        line_start: line_start as usize,
        line_end: line_end_of(s, line_start) as usize,
        at: at as usize,
    }
}

proof fn line_start_bound(s: Seq<char>, p: int)
    requires
        0 <= p <= s.len(),
    ensures
        0 <= line_start_of(s, p) <= p,
    decreases p,
{
    if p > 0 && s[p - 1] != '\n' {
        line_start_bound(s, p - 1);
    }
}

proof fn line_end_bound(s: Seq<char>, p: int)
    requires
        0 <= p <= s.len(),
    ensures
        p <= line_end_of(s, p) <= s.len(),
    decreases s.len() - p,
{
    if p < s.len() && s[p] != '\n' {
        line_end_bound(s, p + 1);
    }
}

pub fn line_info(source: &Vec<char>, offset: usize) -> (r: LineInfo)
    ensures
        r == line_info_spec(source@, offset as int),
        r.line_start <= r.at <= source.len(),
        r.line_start <= r.line_end <= source.len(),
        r.line >= 1,
        r.column >= 1,
{
    let at: usize = chars_before(source, offset);
    let mut line: u128 = 1;
    let mut i: usize = 0;
    while i < at
        invariant
            i <= at <= source.len(),
            line == 1 + breaks(source@.subrange(0, i as int)),
            1 <= line <= i + 1,
        decreases at - i,
    {
        assert(source@.subrange(0, i + 1).drop_last() =~= source@.subrange(0, i as int));
        if source[i] == '\n' {
            line = line + 1;
        }
        i += 1;
    }
    let mut line_start: usize = at;
    while line_start > 0 && source[line_start - 1] != '\n'
        invariant
            line_start <= at <= source.len(),
            line_start_of(source@, line_start as int) == line_start_of(source@, at as int),
        decreases line_start,
    {
        line_start -= 1;
    }
    let mut line_end: usize = line_start;
    while line_end < source.len() && source[line_end] != '\n'
        invariant
            line_start <= line_end <= source.len(),
            line_end_of(source@, line_end as int) == line_end_of(source@, line_start as int),
        decreases source.len() - line_end,
    {
        line_end += 1;
    }
    LineInfo { line, column: (at - line_start) as u128 + 1, line_start, line_end, at }
}

/// `n` copies of a character.
pub open spec fn repeat_spec(c: char, n: int) -> Seq<char> {
    Seq::new(n as nat, |i: int| c)
}

pub fn repeat(c: char, n: usize) -> (r: String)
    ensures
        r@ == repeat_spec(c, n as int),
{
    let mut r = String::new();
    let mut i: usize = 0;
    while i < n
        invariant
            i <= n,
            r@ =~= repeat_spec(c, i as int),
        decreases n - i,
    {
        r = push_char(r, c);
        i += 1;
    }
    r
}

/// The place a diagnostic names can be shown: its start falls between
/// characters, and so does its end, unless it comes before the start or behind
/// the line.
pub open spec fn renderable(source: Seq<char>, span: Span) -> bool {
    crate::text::on_boundary(source, span.start as int)
        && (span.end <= span.start || crate::text::on_boundary(source, span.end as int)
        || crate::text::chars_before_spec(source, span.end as int) > line_info_spec(source, span.start as int).line_end)
}

/// Both ends of `span` fall between characters of `source`.
pub open spec fn locatable(source: Seq<char>, span: Span) -> bool {
    crate::text::on_boundary(source, span.start as int)
        && crate::text::on_boundary(source, span.end as int)
}

/// The header, the source line and the underline of one message.
pub open spec fn render_one_spec(
    path: Seq<char>,
    source: Seq<char>,
    span: Span,
    level: Seq<char>,
    message: Seq<char>,
) -> Seq<char> {
    let info = line_info_spec(source, span.start as int);
    let end = crate::text::chars_before_spec(source, span.end as int);
    let stop = if end > info.line_end { info.line_end as int } else { end };
    let width = if stop - info.at < 1 { 1int } else { stop - info.at };
    path + ":"@ + crate::text::decimal(info.line as int) + ":"@
        + crate::text::decimal(info.column as int) + ": "@ + level
        + ": "@ + message + "\n"@ + source.subrange(info.line_start as int, info.line_end as int)
        + "\n"@ + repeat_spec(' ', info.at - info.line_start) + repeat_spec('^', width) + "\n"@
}

proof fn at_within_line(s: Seq<char>, p: int)
    requires
        0 <= p <= s.len(),
    ensures
        p <= line_end_of(s, line_start_of(s, p)),
    decreases p,
{
    if p > 0 && s[p - 1] != '\n' {
        at_within_line(s, p - 1);
        line_start_bound(s, p - 1);
        same_line_end(s, line_start_of(s, p - 1), p - 1);
        line_end_bound(s, p);
    } else {
        line_end_bound(s, p);
    }
}

proof fn same_line_end(s: Seq<char>, a: int, p: int)
    requires
        0 <= a <= p <= s.len(),
        p <= line_end_of(s, a),
    ensures
        line_end_of(s, p) == line_end_of(s, a),
    decreases p - a,
{
    if a < p {
        same_line_end(s, a + 1, p);
    }
}

pub fn render_one(path: &str, source: &str, span: Span, level: &str, message: &str) -> (r: String)
    requires
        renderable(source@, span),
    ensures
        r@ == render_one_spec(path@, source@, span, level@, message@),
{
    let cs = chars_of(source);
    let info = line_info(&cs, span.start);
    let end: usize = chars_before(&cs, span.end);
    let stop: usize = if end > info.line_end {
        info.line_end
    } else {
        end
    };
    proof {
        at_within_line(source@, info.at as int);
    }
    let width: usize = if stop <= info.at {
        1
    } else {
        stop - info.at
    };
    let mut out = text(path);
    out.append(":");
    out.append(&nat_text(info.line));
    out.append(":");
    out.append(&nat_text(info.column));
    out.append(": ");
    out.append(level);
    out.append(": ");
    out.append(message);
    out.append("\n");
    out.append(&text_of(&slice_chars(&cs, info.line_start, info.line_end)));
    out.append("\n");
    out.append(&repeat(' ', info.at - info.line_start));
    out.append(&repeat('^', width));
    out.append("\n");
    out
}

/// A control character as four hexadecimal digits.
pub open spec fn hex4_spec(c: char) -> Seq<char> {
    "00"@ + crate::text::digit_spec(c as int / 16) + crate::text::digit_spec(c as int % 16)
}

pub fn hex4(c: char) -> (r: String)
    ensures
        r@ == hex4_spec(c),
{
    let n: u128 = c as u128;
    cat3("00", digit(n / 16), digit(n % 16))
}

/// One character inside a JSON string.
pub open spec fn json_char_spec(c: char) -> Seq<char> {
    if c == '"' {
        "\\\""@
    } else if c == '\\' {
        "\\\\"@
    } else if c == '\n' {
        "\\n"@
    } else if c == '\r' {
        "\\r"@
    } else if c == '\t' {
        "\\t"@
    } else if (c as u32) < 0x20 {
        "\\u"@ + hex4_spec(c)
    } else {
        seq![c]
    }
}

pub fn json_char(c: char) -> (r: String)
    ensures
        r@ == json_char_spec(c),
{
    if c == '"' {
        text("\\\"")
    } else if c == '\\' {
        text("\\\\")
    } else if c == '\n' {
        text("\\n")
    } else if c == '\r' {
        text("\\r")
    } else if c == '\t' {
        text("\\t")
    } else if (c as u32) < 0x20 {
        cat2("\\u", &hex4(c))
    } else {
        push_char(String::new(), c)
    }
}

/// The characters of a text, each escaped for a JSON string.
pub open spec fn json_body(s: Seq<char>) -> Seq<char>
    decreases s.len(),
{
    if s.len() == 0 {
        Seq::empty()
    } else {
        json_body(s.drop_last()) + json_char_spec(s.last())
    }
}

/// A text as a JSON string literal.
pub open spec fn json_string_spec(s: Seq<char>) -> Seq<char> {
    "\""@ + json_body(s) + "\""@
}

pub fn json_string(s: &str) -> (r: String)
    ensures
        r@ == json_string_spec(s@),
{
    let cs = chars_of(s);
    let mut body = String::new();
    let mut i: usize = 0;
    while i < cs.len()
        invariant
            i <= cs.len(),
            body@ == json_body(cs@.subrange(0, i as int)),
        decreases cs.len() - i,
    {
        assert(cs@.subrange(0, i + 1).drop_last() =~= cs@.subrange(0, i as int));
        body.append(&json_char(cs[i]));
        i += 1;
    }
    assert(cs@.subrange(0, cs@.len() as int) =~= s@);
    cat3("\"", &body, "\"")
}

/// What a hexadecimal digit stands for.
pub open spec fn hex_value(c: char) -> int {
    if '0' <= c <= '9' {
        c as int - '0' as int
    } else if 'a' <= c <= 'f' {
        c as int - 'a' as int + 10
    } else {
        c as int - 'A' as int + 10
    }
}

/// The character with the given code.
pub open spec fn char_of(code: int) -> char {
    code as char
}

/// What the character behind a backslash stands for in a JSON string.
pub open spec fn json_meaning(c: char) -> char {
    if c == 'n' {
        '\n'
    } else if c == 'r' {
        '\r'
    } else if c == 't' {
        '\t'
    } else if c == 'b' {
        '\u{8}'
    } else if c == 'f' {
        '\u{c}'
    } else {
        c
    }
}

/// The first character that the inside of a JSON string stands for, and how
/// many characters it takes.
pub open spec fn json_first(s: Seq<char>) -> (char, int) {
    if s[0] == '\\' && s.len() > 5 && s[1] == 'u' {
        (char_of(
            ((hex_value(s[2]) * 16 + hex_value(s[3])) * 16 + hex_value(s[4])) * 16
                + hex_value(s[5]),
        ), 6)
    } else if s[0] == '\\' && s.len() > 1 {
        (json_meaning(s[1]), 2)
    } else {
        (s[0], 1)
    }
}

/// The text that the inside of a JSON string stands for.
pub open spec fn json_text(s: Seq<char>) -> Seq<char>
    decreases s.len(),
{
    if s.len() == 0 {
        Seq::empty()
    } else {
        seq![json_first(s).0] + json_text(s.subrange(json_first(s).1, s.len() as int))
    }
}

/// Whether the inside of a JSON string has no quote that would end it, and no
/// control character.
pub open spec fn json_closed(s: Seq<char>) -> bool
    decreases s.len(),
{
    s.len() == 0 || (s[0] != '"' && s[0] as int >= 32 && (s[0] == '\\' ==> s.len() > 1)
        && s.len() >= json_first(s).1 && json_closed(s.subrange(json_first(s).1, s.len() as int)))
}

/// The inside of a JSON string, from its first character on.
proof fn json_body_from_first(s: Seq<char>)
    requires
        s.len() > 0,
    ensures
        json_body(s) == json_char_spec(s[0]) + json_body(s.subrange(1, s.len() as int)),
    decreases s.len(),
{
    let rest = s.subrange(1, s.len() as int);
    if s.len() == 1 {
        assert(s.drop_last() =~= Seq::<char>::empty());
        assert(rest =~= Seq::<char>::empty());
        reveal_with_fuel(json_body, 2);
        assert(json_body(s) =~= json_char_spec(s[0]));
        assert(json_char_spec(s[0]) + json_body(rest) =~= json_char_spec(s[0]));
    } else {
        json_body_from_first(s.drop_last());
        assert(s.drop_last().subrange(1, s.len() - 1) =~= rest.drop_last());
        assert(json_body(s) =~= json_char_spec(s[0]) + json_body(rest));
    }
}

/// One escaped character stands for itself.
proof fn json_char_reads_back(c: char, rest: Seq<char>)
    ensures
        ({
            let one = json_char_spec(c);
            let s = one + rest;
            &&& one.len() > 0
            &&& json_first(s) == (c, one.len() as int)
            &&& s[0] != '"'
            &&& s[0] as int >= 32
            &&& s[0] == '\\' ==> s.len() > 1
        }),
{
    reveal_strlit("\\\"");
    reveal_strlit("\\\\");
    reveal_strlit("\\n");
    reveal_strlit("\\r");
    reveal_strlit("\\t");
    reveal_strlit("\\u");
    reveal_strlit("00");
    reveal_strlit("0");
    reveal_strlit("1");
    reveal_strlit("2");
    reveal_strlit("3");
    reveal_strlit("4");
    reveal_strlit("5");
    reveal_strlit("6");
    reveal_strlit("7");
    reveal_strlit("8");
    reveal_strlit("9");
    reveal_strlit("a");
    reveal_strlit("b");
    reveal_strlit("c");
    reveal_strlit("d");
    reveal_strlit("e");
    reveal_strlit("f");
}

/// A text written as a JSON string stands for that text, and the quotes around
/// it are where the string begins and ends.
pub proof fn json_string_reads_back(s: Seq<char>)
    ensures
        json_string_spec(s) == seq!['"'] + json_body(s) + seq!['"'],
        json_text(json_body(s)) == s,
        json_closed(json_body(s)),
    decreases s.len(),
{
    reveal_strlit("\"");
    assert("\""@ =~= seq!['"']);
    if s.len() > 0 {
        let rest = s.subrange(1, s.len() as int);
        let one = json_char_spec(s[0]);
        let all = json_body(s);
        json_body_from_first(s);
        json_char_reads_back(s[0], json_body(rest));
        json_string_reads_back(rest);
        assert(all.subrange(one.len() as int, all.len() as int) =~= json_body(rest));
        assert(seq![s[0]] + rest =~= s);
    }
}

/// A place in one source file as a JSON object.
pub open spec fn span_json_spec(path: Seq<char>, start: LineInfo, end: LineInfo) -> Seq<char> {
    "{\"file\":"@ + json_string_spec(path) + ",\"line\":"@ + crate::text::decimal(start.line as int)
        + ",\"col\":"@
        + crate::text::decimal(start.column as int) + ",\"end_line\":"@
            + crate::text::decimal(end.line as int)
        + ",\"end_col\":"@ + crate::text::decimal(end.column as int) + "}"@
}

pub fn span_json(path: &str, start: LineInfo, end: LineInfo) -> (r: String)
    ensures
        r@ == span_json_spec(path@, start, end),
{
    let mut out = text("{\"file\":");
    out.append(&json_string(path));
    out.append(",\"line\":");
    out.append(&nat_text(start.line));
    out.append(",\"col\":");
    out.append(&nat_text(start.column));
    out.append(",\"end_line\":");
    out.append(&nat_text(end.line));
    out.append(",\"end_col\":");
    out.append(&nat_text(end.column));
    out.append("}");
    out
}

pub open spec fn emit_span_json_spec(path: Seq<char>, source: Seq<char>, span: Span) -> Seq<char> {
    span_json_spec(
        path,
        line_info_spec(source, span.start as int),
        line_info_spec(source, span.end as int),
    )
}

pub fn emit_span_json(path: &str, source: &str, span: Span) -> (r: String)
    requires
        locatable(source@, span),
    ensures
        r@ == emit_span_json_spec(path@, source@, span),
{
    let cs = chars_of(source);
    span_json(path, line_info(&cs, span.start), line_info(&cs, span.end))
}

/// Tracks where the contents of each source file live in a concatenated
/// buffer, so that an offset in the buffer can be mapped back to a file and
/// an offset in it.
#[derive(Clone, Debug)]
pub struct FileMap {
    entries: Vec<FileEntry>,
}

impl Default for FileMap {
    fn default() -> (r: FileMap)
        ensures
            r@ == Seq::<FileEntryView>::empty(),
    {
        FileMap::new()
    }
}

impl View for FileMap {
    type V = Seq<FileEntryView>;

    closed spec fn view(&self) -> Seq<FileEntryView> {
        entries_view(self.entries@)
    }
}

/// One past the last byte of a file.
pub open spec fn entry_end(e: FileEntryView) -> int {
    e.start + crate::text::byte_len(e.source)
}

/// Every file of the map ends at an offset that can be written down.
pub open spec fn map_fits(m: Seq<FileEntryView>) -> bool {
    forall|i: int| 0 <= i < m.len() ==> entry_end(#[trigger] m[i]) <= usize::MAX
}

/// Whether a file holds the offset, its end included.
pub open spec fn entry_holds(e: FileEntryView, offset: int) -> bool {
    e.start <= offset <= entry_end(e)
}

/// The index of the last file that holds the offset, or -1.
pub open spec fn find_entry(m: Seq<FileEntryView>, offset: int) -> int
    decreases m.len(),
{
    if m.len() == 0 {
        -1
    } else if entry_holds(m.last(), offset) {
        m.len() - 1
    } else {
        find_entry(m.drop_last(), offset)
    }
}

/// One past the last byte covered by any file.
pub open spec fn end_offset_spec(m: Seq<FileEntryView>) -> int
    decreases m.len(),
{
    if m.len() == 0 {
        0
    } else {
        let before = end_offset_spec(m.drop_last());
        if entry_end(m.last()) > before {
            entry_end(m.last())
        } else {
            before
        }
    }
}

/// How far the files of a second map move when they are put behind `m`.
pub open spec fn shift_behind(m: Seq<FileEntryView>) -> int {
    end_offset_spec(m) + if m.len() == 0 {
        0int
    } else {
        1
    }
}

/// A file moved by `shift` bytes.
pub open spec fn shifted(e: FileEntryView, shift: int) -> FileEntryView {
    FileEntryView { start: (e.start + shift) as usize, ..e }
}

/// `m` with the files of `other` behind it.
pub open spec fn merged(m: Seq<FileEntryView>, other: Seq<FileEntryView>) -> Seq<FileEntryView> {
    m + Seq::new(other.len(), |i: int| shifted(other[i], shift_behind(m)))
}

impl FileMap {
    pub fn new() -> (r: FileMap)
        ensures
            r@ == Seq::<FileEntryView>::empty(),
            map_fits(r@),
    {
        let r = FileMap { entries: Vec::new() };
        assert(r@ =~= Seq::<FileEntryView>::empty());
        r
    }

    pub fn push(&mut self, path: String, source: String, start: usize)
        requires
            map_fits(old(self)@),
            start + crate::text::byte_len(source@) <= usize::MAX,
        ensures
            map_fits(final(self)@),
            final(self)@ == old(self)@.push(
                (FileEntryView { path: path@, source: source@, start }),
            ),
    {
        let entry = FileEntry { path, source, start };
        proof {
            entries_view_push(self.entries@, entry);
        }
        self.entries.push(entry);
    }

    /// Finds the file that holds the given offset, the last one added where
    /// several do, with the offset inside it.
    pub fn lookup(&self, global_offset: usize) -> (r: Option<(&FileEntry, usize)>)
        requires
            map_fits(self@),
        ensures
            find_entry(self@, global_offset as int) < 0 ==> r is None,
            find_entry(self@, global_offset as int) >= 0 ==> (r matches Some(found) && found.0@
                == self@[find_entry(self@, global_offset as int)] && found.1 == global_offset
                - found.0.start),
    {
        let mut i: usize = self.entries.len();
        let ghost all = self@;
        assert(all.subrange(0, all.len() as int) =~= all);
        while i > 0
            invariant
                i <= self.entries.len(),
                all == self@,
                self@ == entries_view(self.entries@),
                map_fits(all),
                find_entry(all, global_offset as int) == find_entry(
                    all.subrange(0, i as int),
                    global_offset as int,
                ),
            decreases i,
        {
            let ghost prefix = all.subrange(0, i as int);
            i -= 1;
            let entry = &self.entries[i];
            assert(entry@ == all[i as int]);
            assert(prefix.last() == all[i as int]);
            assert(prefix.drop_last() =~= all.subrange(0, i as int));
            let size: usize = entry.source.as_str().len();
            if entry.start <= global_offset && global_offset <= entry.start + size {
                return Some((entry, global_offset - entry.start));
            }
        }
        None
    }

    pub fn is_empty(&self) -> (r: bool)
        ensures
            r == (self@.len() == 0),
    {
        self.entries.is_empty()
    }

    /// One past the last byte covered by any file. A file added with this
    /// start keeps offsets unambiguous.
    pub fn end_offset(&self) -> (r: usize)
        requires
            map_fits(self@),
        ensures
            r == end_offset_spec(self@),
    {
        let ghost all = self@;
        let mut end: usize = 0;
        let mut i: usize = 0;
        while i < self.entries.len()
            invariant
                i <= self.entries.len(),
                all == self@,
                self@ == entries_view(self.entries@),
                map_fits(all),
                end == end_offset_spec(all.subrange(0, i as int)),
            decreases self.entries.len() - i,
        {
            let entry = &self.entries[i];
            assert(entry@ == all[i as int]);
            assert(all.subrange(0, i + 1).drop_last() =~= all.subrange(0, i as int));
            let size: usize = entry.source.as_str().len();
            let stop: usize = entry.start + size;
            if stop > end {
                end = stop;
            }
            i += 1;
        }
        assert(all.subrange(0, all.len() as int) =~= all);
        end
    }

    /// Puts every file of `other` behind this map, past its end and a gap of
    /// one byte. Returns by how much they moved, which is what has to be added
    /// to a span made against `other`.
    pub fn extend_with(&mut self, other: &FileMap) -> (r: usize)
        requires
            map_fits(old(self)@),
            shift_behind(old(self)@) <= usize::MAX,
            forall|i: int|
                0 <= i < other@.len() ==> entry_end(#[trigger] other@[i]) + shift_behind(old(self)@)
                    <= usize::MAX,
        ensures
            r == shift_behind(old(self)@),
            final(self)@ == merged(old(self)@, other@),
            map_fits(final(self)@),
    {
        let ghost start = self@;
        let shift: usize = self.end_offset() + if self.entries.is_empty() {
            0
        } else {
            1
        };
        let mut i: usize = 0;
        while i < other.entries.len()
            invariant
                i <= other.entries.len(),
                other@ == entries_view(other.entries@),
                self@ == entries_view(self.entries@),
                shift == shift_behind(start),
                map_fits(start),
                forall|j: int|
                    0 <= j < other@.len() ==> entry_end(#[trigger] other@[j]) + shift
                        <= usize::MAX,
                self@ == start + merged(start, other@).subrange(
                    start.len() as int,
                    start.len() + i,
                ),
            decreases other.entries.len() - i,
        {
            let e = &other.entries[i];
            assert(e@ == other@[i as int]);
            assert(entry_end(other@[i as int]) + shift <= usize::MAX);
            let moved = FileEntry {
                path: e.path.clone(),
                source: e.source.clone(),
                start: e.start + shift,
            };
            proof {
                entries_view_push(self.entries@, moved);
            }
            assert(moved@ == shifted(other@[i as int], shift as int));
            self.entries.push(moved);
            assert(merged(start, other@).subrange(start.len() as int, start.len() + i + 1)
                =~= merged(start, other@).subrange(start.len() as int, start.len() + i).push(moved@));
            i += 1;
        }
        assert(start + merged(start, other@).subrange(start.len() as int, (start.len() + other@.len()) as int)
            =~= merged(start, other@));
        assert forall|j: int| 0 <= j < self@.len() implies entry_end(#[trigger] self@[j]) <= usize::MAX by {
            if j >= start.len() {
                assert(entry_end(other@[j - start.len()]) + shift <= usize::MAX);
            }
        }
        shift
    }
}

/// `span` relative to the start of the file `e`.
pub open spec fn local_span(e: FileEntryView, span: Span) -> Span {
    let end = if span.end < e.start {
        0int
    } else {
        span.end - e.start
    };
    Span {
        start: (span.start - e.start) as usize,
        end: if end > crate::text::byte_len(e.source) {
            crate::text::byte_len(e.source) as usize
        } else {
            end as usize
        },
    }
}

/// Where `span` falls in a file of the map, both it and its end can be shown.
pub open spec fn renderable_in_map(m: Seq<FileEntryView>, span: Span) -> bool {
    let k = find_entry(m, span.start as int);
    k >= 0 ==> renderable(m[k].source, local_span(m[k], span))
}

pub open spec fn locatable_in_map(m: Seq<FileEntryView>, span: Span) -> bool {
    let k = find_entry(m, span.start as int);
    k >= 0 ==> locatable(m[k].source, local_span(m[k], span))
}

/// One message against a map of files; without a file where none holds it.
pub open spec fn render_with_filemap_spec(
    m: Seq<FileEntryView>,
    span: Span,
    level: Seq<char>,
    message: Seq<char>,
) -> Seq<char> {
    let k = find_entry(m, span.start as int);
    if k < 0 {
        "?:?:?: "@ + level + ": "@ + message + "\n"@
    } else {
        render_one_spec(m[k].path, m[k].source, local_span(m[k], span), level, message)
    }
}

fn local(entry: &FileEntry, local_start: usize, span: Span) -> (r: Span)
    requires
        entry.start <= span.start,
        local_start == span.start - entry.start,
        entry_end(entry@) <= usize::MAX,
    ensures
        r == local_span(entry@, span),
{
    let size: usize = entry.source.as_str().len();
    let end: usize = if span.end < entry.start {
        0
    } else {
        span.end - entry.start
    };
    Span {
        start: local_start,
        end: if end > size {
            size
        } else {
            end
        },
    }
}

proof fn found_entry(m: Seq<FileEntryView>, offset: int)
    requires
        find_entry(m, offset) >= 0,
    ensures
        find_entry(m, offset) < m.len(),
        entry_holds(m[find_entry(m, offset)], offset),
    decreases m.len(),
{
    if m.len() > 0 && !entry_holds(m.last(), offset) {
        found_entry(m.drop_last(), offset);
    }
}

pub fn render_with_filemap(map: &FileMap, span: Span, level: &str, message: &str) -> (r: String)
    requires
        map_fits(map@),
        renderable_in_map(map@, span),
    ensures
        r@ == render_with_filemap_spec(map@, span, level@, message@),
{
    proof {
        if find_entry(map@, span.start as int) >= 0 {
            found_entry(map@, span.start as int);
        }
    }
    match map.lookup(span.start) {
        None => cat5("?:?:?: ", level, ": ", message, "\n"),
        Some((entry, local_start)) => {
            let here = local(entry, local_start, span);
            render_one(&entry.path, &entry.source, here, level, message)
        },
    }
}

/// A place in a map of files as a JSON object.
pub open spec fn emit_span_json_with_map_spec(m: Seq<FileEntryView>, span: Span) -> Seq<char> {
    let k = find_entry(m, span.start as int);
    if k < 0 {
        "{\"file\":null}"@
    } else {
        emit_span_json_spec(m[k].path, m[k].source, local_span(m[k], span))
    }
}

pub fn emit_span_json_with_map(map: &FileMap, span: Span) -> (r: String)
    requires
        map_fits(map@),
        locatable_in_map(map@, span),
    ensures
        r@ == emit_span_json_with_map_spec(map@, span),
{
    proof {
        if find_entry(map@, span.start as int) >= 0 {
            found_entry(map@, span.start as int);
        }
    }
    match map.lookup(span.start) {
        None => text("{\"file\":null}"),
        Some((entry, local_start)) => {
            let here = local(entry, local_start, span);
            emit_span_json(&entry.path, &entry.source, here)
        },
    }
}

/// Every place that a list of notes names can be shown in `source`.
pub open spec fn notes_renderable(source: Seq<char>, notes: Seq<(Span, Seq<char>)>) -> bool {
    forall|i: int| 0 <= i < notes.len() ==> renderable(source, (#[trigger] notes[i]).0)
}

/// Every place that a list of diagnostics names can be shown in `source`.
pub open spec fn all_renderable(source: Seq<char>, ds: Seq<DiagnosticView>) -> bool {
    forall|i: int|
        0 <= i < ds.len() ==> renderable(source, (#[trigger] ds[i]).span) && notes_renderable(
            source,
            ds[i].related,
        )
}

pub open spec fn notes_locatable(source: Seq<char>, notes: Seq<(Span, Seq<char>)>) -> bool {
    forall|i: int| 0 <= i < notes.len() ==> locatable(source, (#[trigger] notes[i]).0)
}

pub open spec fn all_locatable(source: Seq<char>, ds: Seq<DiagnosticView>) -> bool {
    forall|i: int|
        0 <= i < ds.len() ==> locatable(source, (#[trigger] ds[i]).span) && notes_locatable(
            source,
            ds[i].related,
        )
}

pub open spec fn notes_renderable_in_map(
    m: Seq<FileEntryView>,
    notes: Seq<(Span, Seq<char>)>,
) -> bool {
    forall|i: int| 0 <= i < notes.len() ==> renderable_in_map(m, (#[trigger] notes[i]).0)
}

pub open spec fn all_renderable_in_map(m: Seq<FileEntryView>, ds: Seq<DiagnosticView>) -> bool {
    forall|i: int|
        0 <= i < ds.len() ==> renderable_in_map(m, (#[trigger] ds[i]).span)
            && notes_renderable_in_map(m, ds[i].related)
}

pub open spec fn notes_locatable_in_map(
    m: Seq<FileEntryView>,
    notes: Seq<(Span, Seq<char>)>,
) -> bool {
    forall|i: int| 0 <= i < notes.len() ==> locatable_in_map(m, (#[trigger] notes[i]).0)
}

pub open spec fn all_locatable_in_map(m: Seq<FileEntryView>, ds: Seq<DiagnosticView>) -> bool {
    forall|i: int|
        0 <= i < ds.len() ==> locatable_in_map(m, (#[trigger] ds[i]).span)
            && notes_locatable_in_map(m, ds[i].related)
}

/// What [`render_notes`] computes from position `i` on.
pub open spec fn render_notes_spec(
    notes: Seq<(Span, Seq<char>)>,
    path: Seq<char>,
    source: Seq<char>,
    out: Seq<char>,
    i: int,
) -> Seq<char>
    decreases notes.len() - i,
{
    if 0 <= i < notes.len() {
        let note = notes[i];
        let out = out + render_one_spec(path, source, note.0, "note"@, note.1);
        render_notes_spec(notes, path, source, out, i + 1)
    } else {
        out
    }
}

/// Adds the notes of a diagnostic.
pub fn render_notes(
    notes: &Vec<(Span, String)>,
    path: &str,
    source: &str,
    out: String,
) -> (r: String)
    requires
        notes_renderable(source@, notes_view(notes@)),
    ensures
        r@ == render_notes_spec(notes_view(notes@), path@, source@, out@, 0),
{
    let ghost whole_run = render_notes_spec(notes_view(notes@), path@, source@, out@, 0);
    let mut out = out;
    let mut i: usize = 0;
    while i < notes.len()
        invariant
            i <= notes.len(),
            render_notes_spec(notes_view(notes@), path@, source@, out@, i as int) == whole_run,
            notes_renderable(source@, notes_view(notes@)),
        decreases notes.len() - i,
    {
        let note = &notes[i];
        out = extend(out, &render_one(path, source, note.0, "note", &note.1));
        i += 1;
    }
    out
}

/// What [`render_all`] computes from position `i` on.
pub open spec fn render_all_spec(
    diagnostics: Seq<DiagnosticView>,
    path: Seq<char>,
    source: Seq<char>,
    out: Seq<char>,
    i: int,
) -> Seq<char>
    decreases diagnostics.len() - i,
{
    if 0 <= i < diagnostics.len() {
        let d = diagnostics[i];
        let out = {
            let out = out + render_one_spec(path, source, d.span, "error"@, d.message);
            render_notes_spec(d.related, path, source, out, 0)
        };
        render_all_spec(diagnostics, path, source, out, i + 1)
    } else {
        out
    }
}

/// Adds diagnostics, each with its notes.
pub fn render_all(diagnostics: &[Diagnostic], path: &str, source: &str, out: String) -> (r: String)
    requires
        all_renderable(source@, diagnostics_view(diagnostics@)),
    ensures
        r@ == render_all_spec(diagnostics_view(diagnostics@), path@, source@, out@, 0),
{
    let ghost whole_run = render_all_spec(diagnostics_view(diagnostics@), path@, source@, out@, 0);
    let mut out = out;
    let mut i: usize = 0;
    while i < diagnostics.len()
        invariant
            i <= diagnostics.len(),
            render_all_spec(
                diagnostics_view(diagnostics@),
                path@,
                source@,
                out@,
                i as int,
            ) == whole_run,
            all_renderable(source@, diagnostics_view(diagnostics@)),
        decreases diagnostics.len() - i,
    {
        let d = &diagnostics[i];
        out = {
            proof {
                assert(diagnostics_view(diagnostics@)[i as int] == d@);
            }
            let out = extend(out, &render_one(path, source, d.span, "error", &d.message));
            render_notes(&d.related, path, source, out)
        };
        i += 1;
    }
    out
}

/// What [`format_diagnostics`] computes.
pub open spec fn format_diagnostics_spec(
    path: Seq<char>,
    source: Seq<char>,
    diagnostics: Seq<DiagnosticView>,
) -> Seq<char>
{
    render_all_spec(diagnostics, path, source, ""@, 0)
}

/// The diagnostics as text: for each place a header, its source line and an
/// underline.
pub fn format_diagnostics(path: &str, source: &str, diagnostics: &[Diagnostic]) -> (r: String)
    requires
        all_renderable(source@, diagnostics_view(diagnostics@)),
    ensures
        r@ == format_diagnostics_spec(path@, source@, diagnostics_view(diagnostics@)),
{
    render_all(diagnostics, path, source, text(""))
}

/// What [`render_notes_in_map`] computes from position `i` on.
pub open spec fn render_notes_in_map_spec(
    notes: Seq<(Span, Seq<char>)>,
    map: Seq<FileEntryView>,
    out: Seq<char>,
    i: int,
) -> Seq<char>
    decreases notes.len() - i,
{
    if 0 <= i < notes.len() {
        let note = notes[i];
        let out = out + render_with_filemap_spec(map, note.0, "note"@, note.1);
        render_notes_in_map_spec(notes, map, out, i + 1)
    } else {
        out
    }
}

/// Adds the notes of a diagnostic, each with its own file.
pub fn render_notes_in_map(notes: &Vec<(Span, String)>, map: &FileMap, out: String) -> (r: String)
    requires
        map_fits(map@), notes_renderable_in_map(map@, notes_view(notes@)),
    ensures
        r@ == render_notes_in_map_spec(notes_view(notes@), map@, out@, 0),
{
    let ghost whole_run = render_notes_in_map_spec(notes_view(notes@), map@, out@, 0);
    let mut out = out;
    let mut i: usize = 0;
    while i < notes.len()
        invariant
            i <= notes.len(),
            render_notes_in_map_spec(notes_view(notes@), map@, out@, i as int) == whole_run,
            map_fits(map@), notes_renderable_in_map(map@, notes_view(notes@)),
        decreases notes.len() - i,
    {
        let note = &notes[i];
        out = extend(out, &render_with_filemap(map, note.0, "note", &note.1));
        i += 1;
    }
    out
}

/// What [`render_all_in_map`] computes from position `i` on.
pub open spec fn render_all_in_map_spec(
    diagnostics: Seq<DiagnosticView>,
    map: Seq<FileEntryView>,
    out: Seq<char>,
    i: int,
) -> Seq<char>
    decreases diagnostics.len() - i,
{
    if 0 <= i < diagnostics.len() {
        let d = diagnostics[i];
        let out = {
            let out = out + render_with_filemap_spec(map, d.span, "error"@, d.message);
            render_notes_in_map_spec(d.related, map, out, 0)
        };
        render_all_in_map_spec(diagnostics, map, out, i + 1)
    } else {
        out
    }
}

/// Adds diagnostics, each with its own file.
pub fn render_all_in_map(diagnostics: &[Diagnostic], map: &FileMap, out: String) -> (r: String)
    requires
        map_fits(map@), all_renderable_in_map(map@, diagnostics_view(diagnostics@)),
    ensures
        r@ == render_all_in_map_spec(diagnostics_view(diagnostics@), map@, out@, 0),
{
    let ghost whole_run = render_all_in_map_spec(diagnostics_view(diagnostics@), map@, out@, 0);
    let mut out = out;
    let mut i: usize = 0;
    while i < diagnostics.len()
        invariant
            i <= diagnostics.len(),
            render_all_in_map_spec(
                diagnostics_view(diagnostics@),
                map@,
                out@,
                i as int,
            ) == whole_run,
            map_fits(map@), all_renderable_in_map(map@, diagnostics_view(diagnostics@)),
        decreases diagnostics.len() - i,
    {
        let d = &diagnostics[i];
        out = {
            proof {
                assert(diagnostics_view(diagnostics@)[i as int] == d@);
            }
            let out = extend(out, &render_with_filemap(map, d.span, "error", &d.message));
            render_notes_in_map(&d.related, map, out)
        };
        i += 1;
    }
    out
}

/// What [`format_diagnostics_with_files`] computes.
pub open spec fn format_diagnostics_with_files_spec(
    map: Seq<FileEntryView>,
    diagnostics: Seq<DiagnosticView>,
) -> Seq<char>
{
    render_all_in_map_spec(diagnostics, map, ""@, 0)
}

/// [`format_diagnostics`] against a map of files.
pub fn format_diagnostics_with_files(map: &FileMap, diagnostics: &[Diagnostic]) -> (r: String)
    requires
        map_fits(map@), all_renderable_in_map(map@, diagnostics_view(diagnostics@)),
    ensures
        r@ == format_diagnostics_with_files_spec(map@, diagnostics_view(diagnostics@)),
{
    render_all_in_map(diagnostics, map, text(""))
}

/// What [`json_notes`] computes from position `i` on.
pub open spec fn json_notes_spec(
    notes: Seq<(Span, Seq<char>)>,
    path: Seq<char>,
    source: Seq<char>,
    out: Seq<char>,
    i: int,
) -> Seq<char>
    decreases notes.len() - i,
{
    if 0 <= i < notes.len() {
        let note = notes[i];
        let out = {
            let out = if i > 0 { out + ","@ } else { out };
            let out = out + "{\"message\":"@;
            let out = out + json_string_spec(note.1);
            let out = out + ",\"span\":"@;
            let out = out + emit_span_json_spec(path, source, note.0);
            out + "}"@
        };
        json_notes_spec(notes, path, source, out, i + 1)
    } else {
        out
    }
}

/// Adds the notes of a diagnostic as JSON objects, with commas between them.
pub fn json_notes(notes: &Vec<(Span, String)>, path: &str, source: &str, out: String) -> (r: String)
    requires
        notes_locatable(source@, notes_view(notes@)),
    ensures
        r@ == json_notes_spec(notes_view(notes@), path@, source@, out@, 0),
{
    let ghost whole_run = json_notes_spec(notes_view(notes@), path@, source@, out@, 0);
    let mut out = out;
    let mut i: usize = 0;
    while i < notes.len()
        invariant
            i <= notes.len(),
            json_notes_spec(notes_view(notes@), path@, source@, out@, i as int) == whole_run,
            notes_locatable(source@, notes_view(notes@)),
        decreases notes.len() - i,
    {
        let note = &notes[i];
        out = {
            let out = if i > 0 { extend(out, ",") } else { out };
            let out = extend(out, "{\"message\":");
            let out = extend(out, &json_string(&note.1));
            let out = extend(out, ",\"span\":");
            let out = extend(out, &emit_span_json(path, source, note.0));
            extend(out, "}")
        };
        i += 1;
    }
    out
}

/// What [`json_all`] computes from position `i` on.
pub open spec fn json_all_spec(
    diagnostics: Seq<DiagnosticView>,
    path: Seq<char>,
    source: Seq<char>,
    out: Seq<char>,
    i: int,
) -> Seq<char>
    decreases diagnostics.len() - i,
{
    if 0 <= i < diagnostics.len() {
        let d = diagnostics[i];
        let out = {
            let out = if i > 0 { out + ","@ } else { out };
            let out = out + "{\"level\":\"error\",\"message\":"@;
            let out = out + json_string_spec(d.message);
            let out = out + ",\"primary\":"@;
            let out = out + emit_span_json_spec(path, source, d.span);
            let out = if d.related.len() > 0 {
                let out = out + ",\"related\":["@;
                let out = json_notes_spec(d.related, path, source, out, 0);
                out + "]"@
            } else {
                out
            };
            out + "}"@
        };
        json_all_spec(diagnostics, path, source, out, i + 1)
    } else {
        out
    }
}

/// Adds diagnostics as JSON objects, with commas between them.
pub fn json_all(diagnostics: &[Diagnostic], path: &str, source: &str, out: String) -> (r: String)
    requires
        all_locatable(source@, diagnostics_view(diagnostics@)),
    ensures
        r@ == json_all_spec(diagnostics_view(diagnostics@), path@, source@, out@, 0),
{
    let ghost whole_run = json_all_spec(diagnostics_view(diagnostics@), path@, source@, out@, 0);
    let mut out = out;
    let mut i: usize = 0;
    while i < diagnostics.len()
        invariant
            i <= diagnostics.len(),
            json_all_spec(
                diagnostics_view(diagnostics@),
                path@,
                source@,
                out@,
                i as int,
            ) == whole_run,
            all_locatable(source@, diagnostics_view(diagnostics@)),
        decreases diagnostics.len() - i,
    {
        let d = &diagnostics[i];
        out = {
            proof {
                assert(diagnostics_view(diagnostics@)[i as int] == d@);
            }
            let out = if i > 0 { extend(out, ",") } else { out };
            let out = extend(out, "{\"level\":\"error\",\"message\":");
            let out = extend(out, &json_string(&d.message));
            let out = extend(out, ",\"primary\":");
            let out = extend(out, &emit_span_json(path, source, d.span));
            let out = if d.related.len() > 0 {
                let out = extend(out, ",\"related\":[");
                let out = json_notes(&d.related, path, source, out);
                extend(out, "]")
            } else {
                out
            };
            extend(out, "}")
        };
        i += 1;
    }
    out
}

/// What [`format_diagnostics_json`] computes.
pub open spec fn format_diagnostics_json_spec(
    path: Seq<char>,
    source: Seq<char>,
    diagnostics: Seq<DiagnosticView>,
) -> Seq<char>
{
    let out = "{\"diagnostics\":["@;
    let out = json_all_spec(diagnostics, path, source, out, 0);
    out + "]}\n"@
}

/// The diagnostics as one JSON object with the list `diagnostics`, each with
/// its level, message, primary place and, where it has them, related places.
/// The text ends with a single newline.
pub fn format_diagnostics_json(path: &str, source: &str, diagnostics: &[Diagnostic]) -> (r: String)
    requires
        all_locatable(source@, diagnostics_view(diagnostics@)),
    ensures
        r@ == format_diagnostics_json_spec(path@, source@, diagnostics_view(diagnostics@)),
{
    let out = text("{\"diagnostics\":[");
    let out = json_all(diagnostics, path, source, out);
    extend(out, "]}\n")
}

/// What [`json_notes_in_map`] computes from position `i` on.
pub open spec fn json_notes_in_map_spec(
    notes: Seq<(Span, Seq<char>)>,
    map: Seq<FileEntryView>,
    out: Seq<char>,
    i: int,
) -> Seq<char>
    decreases notes.len() - i,
{
    if 0 <= i < notes.len() {
        let note = notes[i];
        let out = {
            let out = if i > 0 { out + ","@ } else { out };
            let out = out + "{\"message\":"@;
            let out = out + json_string_spec(note.1);
            let out = out + ",\"span\":"@;
            let out = out + emit_span_json_with_map_spec(map, note.0);
            out + "}"@
        };
        json_notes_in_map_spec(notes, map, out, i + 1)
    } else {
        out
    }
}

/// Adds the notes of a diagnostic as JSON objects, each with its own file.
pub fn json_notes_in_map(notes: &Vec<(Span, String)>, map: &FileMap, out: String) -> (r: String)
    requires
        map_fits(map@), notes_locatable_in_map(map@, notes_view(notes@)),
    ensures
        r@ == json_notes_in_map_spec(notes_view(notes@), map@, out@, 0),
{
    let ghost whole_run = json_notes_in_map_spec(notes_view(notes@), map@, out@, 0);
    let mut out = out;
    let mut i: usize = 0;
    while i < notes.len()
        invariant
            i <= notes.len(),
            json_notes_in_map_spec(notes_view(notes@), map@, out@, i as int) == whole_run,
            map_fits(map@), notes_locatable_in_map(map@, notes_view(notes@)),
        decreases notes.len() - i,
    {
        let note = &notes[i];
        out = {
            let out = if i > 0 { extend(out, ",") } else { out };
            let out = extend(out, "{\"message\":");
            let out = extend(out, &json_string(&note.1));
            let out = extend(out, ",\"span\":");
            let out = extend(out, &emit_span_json_with_map(map, note.0));
            extend(out, "}")
        };
        i += 1;
    }
    out
}

/// What [`json_all_in_map`] computes from position `i` on.
pub open spec fn json_all_in_map_spec(
    diagnostics: Seq<DiagnosticView>,
    map: Seq<FileEntryView>,
    out: Seq<char>,
    i: int,
) -> Seq<char>
    decreases diagnostics.len() - i,
{
    if 0 <= i < diagnostics.len() {
        let d = diagnostics[i];
        let out = {
            let out = if i > 0 { out + ","@ } else { out };
            let out = out + "{\"level\":\"error\",\"message\":"@;
            let out = out + json_string_spec(d.message);
            let out = out + ",\"primary\":"@;
            let out = out + emit_span_json_with_map_spec(map, d.span);
            let out = if d.related.len() > 0 {
                let out = out + ",\"related\":["@;
                let out = json_notes_in_map_spec(d.related, map, out, 0);
                out + "]"@
            } else {
                out
            };
            out + "}"@
        };
        json_all_in_map_spec(diagnostics, map, out, i + 1)
    } else {
        out
    }
}

/// Adds diagnostics as JSON objects, each with its own file, with commas between
/// them.
pub fn json_all_in_map(diagnostics: &[Diagnostic], map: &FileMap, out: String) -> (r: String)
    requires
        map_fits(map@), all_locatable_in_map(map@, diagnostics_view(diagnostics@)),
    ensures
        r@ == json_all_in_map_spec(diagnostics_view(diagnostics@), map@, out@, 0),
{
    let ghost whole_run = json_all_in_map_spec(diagnostics_view(diagnostics@), map@, out@, 0);
    let mut out = out;
    let mut i: usize = 0;
    while i < diagnostics.len()
        invariant
            i <= diagnostics.len(),
            json_all_in_map_spec(diagnostics_view(diagnostics@), map@, out@, i as int) == whole_run,
            map_fits(map@), all_locatable_in_map(map@, diagnostics_view(diagnostics@)),
        decreases diagnostics.len() - i,
    {
        let d = &diagnostics[i];
        out = {
            proof {
                assert(diagnostics_view(diagnostics@)[i as int] == d@);
            }
            let out = if i > 0 { extend(out, ",") } else { out };
            let out = extend(out, "{\"level\":\"error\",\"message\":");
            let out = extend(out, &json_string(&d.message));
            let out = extend(out, ",\"primary\":");
            let out = extend(out, &emit_span_json_with_map(map, d.span));
            let out = if d.related.len() > 0 {
                let out = extend(out, ",\"related\":[");
                let out = json_notes_in_map(&d.related, map, out);
                extend(out, "]")
            } else {
                out
            };
            extend(out, "}")
        };
        i += 1;
    }
    out
}

/// What [`format_diagnostics_json_with_files`] computes.
pub open spec fn format_diagnostics_json_with_files_spec(
    map: Seq<FileEntryView>,
    diagnostics: Seq<DiagnosticView>,
) -> Seq<char>
{
    let out = "{\"diagnostics\":["@;
    let out = json_all_in_map_spec(diagnostics, map, out, 0);
    out + "]}\n"@
}

/// [`format_diagnostics_json`] against a map of files.
pub fn format_diagnostics_json_with_files(map: &FileMap, diagnostics: &[Diagnostic]) -> (r: String)
    requires
        map_fits(map@), all_locatable_in_map(map@, diagnostics_view(diagnostics@)),
    ensures
        r@ == format_diagnostics_json_with_files_spec(map@, diagnostics_view(diagnostics@)),
{
    let out = text("{\"diagnostics\":[");
    let out = json_all_in_map(diagnostics, map, out);
    extend(out, "]}\n")
}

/// The end of a map is where its last byte ends: no file ends behind it, and
/// unless the map is empty some file ends there.
pub proof fn end_offset_is_the_last_end(m: Seq<FileEntryView>)
    ensures
        end_offset_spec(m) >= 0,
        forall|i: int| 0 <= i < m.len() ==> entry_end(#[trigger] m[i]) <= end_offset_spec(m),
        m.len() == 0 ==> end_offset_spec(m) == 0,
        m.len() > 0 ==> exists|i: int|
            0 <= i < m.len() && entry_end(#[trigger] m[i]) == end_offset_spec(m),
    decreases m.len(),
{
    if m.len() > 0 {
        end_offset_is_the_last_end(m.drop_last());
        assert forall|i: int| 0 <= i < m.len() implies entry_end(#[trigger] m[i])
            <= end_offset_spec(m) by {
            if i < m.len() - 1 {
                assert(m.drop_last()[i] == m[i]);
            }
        }
        if entry_end(m.last()) == end_offset_spec(m) {
            assert(m[m.len() - 1] == m.last());
        } else {
            let before = m.drop_last();
            assert(entry_end(m.last()) >= 0);
            assert(before.len() > 0);
            let i = choose|i: int|
                0 <= i < before.len() && entry_end(#[trigger] before[i]) == end_offset_spec(before);
            assert(m[i] == before[i]);
        }
    }
}

/// A file put at the end of a map takes no offset in front of it: lookups
/// there find what they found before.
pub proof fn file_at_the_end_hides_nothing(m: Seq<FileEntryView>, e: FileEntryView, offset: int)
    requires
        e.start == end_offset_spec(m),
        offset < end_offset_spec(m),
    ensures
        find_entry(m.push(e), offset) == find_entry(m, offset),
{
    assert(m.push(e).drop_last() =~= m);
}

/// What a lookup in `m` finds does not change when another map is put behind.
pub proof fn lookup_before_is_kept(m: Seq<FileEntryView>, other: Seq<FileEntryView>, offset: int)
    requires
        find_entry(m, offset) >= 0,
        forall|i: int|
            0 <= i < other.len() ==> entry_end(#[trigger] other[i]) + shift_behind(m) <= usize::MAX,
    ensures
        find_entry(merged(m, other), offset) == find_entry(m, offset),
    decreases other.len(),
{
    found_entry(m, offset);
    end_offset_is_the_last_end(m);
    if other.len() == 0 {
        assert(merged(m, other) =~= m);
    } else {
        assert(merged(m, other).drop_last() =~= merged(m, other.drop_last()));
        assert(entry_end(other[other.len() - 1]) + shift_behind(m) <= usize::MAX);
        assert(merged(m, other).last() == shifted(other.last(), shift_behind(m)));
        assert forall|i: int| 0 <= i < other.drop_last().len() implies entry_end(
            #[trigger] other.drop_last()[i],
        ) + shift_behind(m) <= usize::MAX by {
            assert(other.drop_last()[i] == other[i]);
        }
        lookup_before_is_kept(m, other.drop_last(), offset);
    }
}

/// A lookup in a map that was put behind `m` finds the file that it found
/// before, once the offset is moved by as much as the files were.
pub proof fn lookup_behind_is_shifted(m: Seq<FileEntryView>, other: Seq<FileEntryView>, offset: int)
    requires
        offset >= 0,
        forall|i: int|
            0 <= i < other.len() ==> entry_end(#[trigger] other[i]) + shift_behind(m) <= usize::MAX,
    ensures
        find_entry(merged(m, other), offset + shift_behind(m)) == if find_entry(other, offset) < 0 {
            -1
        } else {
            m.len() + find_entry(other, offset)
        },
    decreases other.len(),
{
    let shift = shift_behind(m);
    end_offset_is_the_last_end(m);
    if other.len() == 0 {
        assert(merged(m, other) =~= m);
        if find_entry(m, offset + shift) >= 0 {
            found_entry(m, offset + shift);
        }
        not_found(m, offset + shift);
    } else {
        assert(merged(m, other).drop_last() =~= merged(m, other.drop_last()));
        assert(entry_end(other[other.len() - 1]) + shift <= usize::MAX);
        assert(merged(m, other).last() == shifted(other.last(), shift));
        assert forall|i: int| 0 <= i < other.drop_last().len() implies entry_end(
            #[trigger] other.drop_last()[i],
        ) + shift <= usize::MAX by {
            assert(other.drop_last()[i] == other[i]);
        }
        lookup_behind_is_shifted(m, other.drop_last(), offset);
    }
}

proof fn not_found(m: Seq<FileEntryView>, offset: int)
    ensures
        find_entry(m, offset) >= -1,
    decreases m.len(),
{
    if m.len() > 0 {
        not_found(m.drop_last(), offset);
    }
}

/// A span moved by `shift` bytes.
pub open spec fn moved_span(span: Span, shift: int) -> Span {
    Span { start: (span.start + shift) as usize, end: (span.end + shift) as usize }
}

/// Notes whose places are moved by `shift` bytes.
pub open spec fn moved_notes(notes: Seq<(Span, Seq<char>)>, shift: int) -> Seq<(Span, Seq<char>)> {
    Seq::new(notes.len(), |i: int| (moved_span(notes[i].0, shift), notes[i].1))
}

/// Diagnostics whose places are moved by `shift` bytes.
pub open spec fn moved_diagnostics(ds: Seq<DiagnosticView>, shift: int) -> Seq<DiagnosticView> {
    Seq::new(
        ds.len(),
        |i: int|
            DiagnosticView {
                span: moved_span(ds[i].span, shift),
                message: ds[i].message,
                related: moved_notes(ds[i].related, shift),
            },
    )
}

/// A span can be moved by `shift` bytes.
pub open spec fn span_moves(span: Span, shift: int) -> bool {
    span.start + shift <= usize::MAX && span.end + shift <= usize::MAX
}

/// Every place that a list of notes names can be moved by `shift` bytes.
pub open spec fn notes_move(notes: Seq<(Span, Seq<char>)>, shift: int) -> bool {
    forall|i: int| 0 <= i < notes.len() ==> span_moves((#[trigger] notes[i]).0, shift)
}

/// Every place that a list of diagnostics names can be moved by `shift` bytes.
pub open spec fn all_move(ds: Seq<DiagnosticView>, shift: int) -> bool {
    forall|i: int|
        0 <= i < ds.len() ==> span_moves((#[trigger] ds[i]).span, shift) && notes_move(
            ds[i].related,
            shift,
        )
}

/// Every file of a map can be moved by `shift` bytes.
pub open spec fn files_move(m: Seq<FileEntryView>, shift: int) -> bool {
    forall|i: int| 0 <= i < m.len() ==> entry_end(#[trigger] m[i]) + shift <= usize::MAX
}

proof fn place_is_kept(m: Seq<FileEntryView>, other: Seq<FileEntryView>, span: Span)
    requires
        files_move(other, shift_behind(m)),
        span_moves(span, shift_behind(m)),
    ensures
        forall|level: Seq<char>, message: Seq<char>|
            #[trigger] render_with_filemap_spec(
                merged(m, other),
                moved_span(span, shift_behind(m)),
                level,
                message,
            ) == render_with_filemap_spec(other, span, level, message),
        emit_span_json_with_map_spec(merged(m, other), moved_span(span, shift_behind(m)))
            == emit_span_json_with_map_spec(other, span),
{
    let shift = shift_behind(m);
    end_offset_is_the_last_end(m);
    lookup_behind_is_shifted(m, other, span.start as int);
    let k = find_entry(other, span.start as int);
    if k >= 0 {
        found_entry(other, span.start as int);
        assert(merged(m, other)[m.len() + k] == shifted(other[k], shift));
        assert(entry_end(other[k]) + shift <= usize::MAX);
        assert(
            local_span(
                shifted(other[k], shift),
                moved_span(span, shift),
            ) == local_span(other[k], span)
        );
    }
}

proof fn notes_are_kept(
    m: Seq<FileEntryView>,
    other: Seq<FileEntryView>,
    notes: Seq<(Span, Seq<char>)>,
    out: Seq<char>,
    i: int,
)
    requires
        files_move(other, shift_behind(m)),
        notes_move(notes, shift_behind(m)),
        0 <= i <= notes.len(),
    ensures
        render_notes_in_map_spec(moved_notes(notes, shift_behind(m)), merged(m, other), out, i)
            == render_notes_in_map_spec(notes, other, out, i),
    decreases notes.len() - i,
{
    if i < notes.len() {
        place_is_kept(m, other, notes[i].0);
        let more = out + render_with_filemap_spec(other, notes[i].0, "note"@, notes[i].1);
        notes_are_kept(m, other, notes, more, i + 1);
    }
}

proof fn json_notes_are_kept(
    m: Seq<FileEntryView>,
    other: Seq<FileEntryView>,
    notes: Seq<(Span, Seq<char>)>,
    out: Seq<char>,
    i: int,
)
    requires
        files_move(other, shift_behind(m)),
        notes_move(notes, shift_behind(m)),
        0 <= i <= notes.len(),
    ensures
        json_notes_in_map_spec(moved_notes(notes, shift_behind(m)), merged(m, other), out, i)
            == json_notes_in_map_spec(notes, other, out, i),
    decreases notes.len() - i,
{
    if i < notes.len() {
        place_is_kept(m, other, notes[i].0);
        let out1 = if i > 0 { out + ","@ } else { out };
        let out2 = out1 + "{\"message\":"@;
        let out3 = out2 + json_string_spec(notes[i].1);
        let out4 = out3 + ",\"span\":"@;
        let out5 = out4 + emit_span_json_with_map_spec(other, notes[i].0);
        json_notes_are_kept(m, other, notes, out5 + "}"@, i + 1);
    }
}

proof fn rest_is_kept(
    m: Seq<FileEntryView>,
    other: Seq<FileEntryView>,
    ds: Seq<DiagnosticView>,
    out: Seq<char>,
    i: int,
)
    requires
        files_move(other, shift_behind(m)),
        all_move(ds, shift_behind(m)),
        0 <= i <= ds.len(),
    ensures
        render_all_in_map_spec(moved_diagnostics(ds, shift_behind(m)), merged(m, other), out, i)
            == render_all_in_map_spec(ds, other, out, i),
    decreases ds.len() - i,
{
    if i < ds.len() {
        place_is_kept(m, other, ds[i].span);
        let head = out + render_with_filemap_spec(other, ds[i].span, "error"@, ds[i].message);
        notes_are_kept(m, other, ds[i].related, head, 0);
        let more = render_notes_in_map_spec(ds[i].related, other, head, 0);
        rest_is_kept(m, other, ds, more, i + 1);
    }
}

/// Diagnostics made against `other` read the same after `other` was put behind
/// `m`, once they are moved by what [`FileMap::extend_with`] returned.
pub proof fn merged_diagnostics_read_the_same(
    m: Seq<FileEntryView>,
    other: Seq<FileEntryView>,
    ds: Seq<DiagnosticView>,
)
    requires
        files_move(other, shift_behind(m)),
        all_move(ds, shift_behind(m)),
    ensures
        format_diagnostics_with_files_spec(merged(m, other), moved_diagnostics(ds, shift_behind(m)))
            == format_diagnostics_with_files_spec(other, ds),
{
    rest_is_kept(m, other, ds, ""@, 0);
}

proof fn json_rest_is_kept(
    m: Seq<FileEntryView>,
    other: Seq<FileEntryView>,
    ds: Seq<DiagnosticView>,
    out: Seq<char>,
    i: int,
)
    requires
        files_move(other, shift_behind(m)),
        all_move(ds, shift_behind(m)),
        0 <= i <= ds.len(),
    ensures
        json_all_in_map_spec(moved_diagnostics(ds, shift_behind(m)), merged(m, other), out, i)
            == json_all_in_map_spec(ds, other, out, i),
    decreases ds.len() - i,
{
    if i < ds.len() {
        let d = ds[i];
        place_is_kept(m, other, d.span);
        let out1 = if i > 0 { out + ","@ } else { out };
        let out2 = out1 + "{\"level\":\"error\",\"message\":"@;
        let out3 = out2 + json_string_spec(d.message);
        let out4 = out3 + ",\"primary\":"@;
        let out5 = out4 + emit_span_json_with_map_spec(other, d.span);
        let out6 = out5 + ",\"related\":["@;
        json_notes_are_kept(m, other, d.related, out6, 0);
        let out7 = if d.related.len() > 0 {
            json_notes_in_map_spec(d.related, other, out6, 0) + "]"@
        } else {
            out5
        };
        json_rest_is_kept(m, other, ds, out7 + "}"@, i + 1);
    }
}

/// Diagnostics made against `other` have the same JSON after `other` was put
/// behind `m`, once they are moved by what [`FileMap::extend_with`] returned.
pub proof fn merged_diagnostics_have_the_same_json(
    m: Seq<FileEntryView>,
    other: Seq<FileEntryView>,
    ds: Seq<DiagnosticView>,
)
    requires
        files_move(other, shift_behind(m)),
        all_move(ds, shift_behind(m)),
    ensures
        format_diagnostics_json_with_files_spec(
            merged(m, other),
            moved_diagnostics(ds, shift_behind(m)),
        ) == format_diagnostics_json_with_files_spec(other, ds),
{
    json_rest_is_kept(m, other, ds, "{\"diagnostics\":["@, 0);
}

/// A text without a line break.
pub open spec fn unbroken(s: Seq<char>) -> bool {
    forall|i: int| 0 <= i < s.len() ==> #[trigger] s[i] != '\n'
}

proof fn digit_unbroken(d: int)
    ensures
        unbroken(crate::text::digit_spec(d)),
{
    reveal_strlit("0");
    reveal_strlit("1");
    reveal_strlit("2");
    reveal_strlit("3");
    reveal_strlit("4");
    reveal_strlit("5");
    reveal_strlit("6");
    reveal_strlit("7");
    reveal_strlit("8");
    reveal_strlit("9");
    reveal_strlit("a");
    reveal_strlit("b");
    reveal_strlit("c");
    reveal_strlit("d");
    reveal_strlit("e");
    reveal_strlit("f");
}

proof fn nat_text_unbroken(n: int)
    ensures
        unbroken(crate::text::nat_text_spec(n)),
    decreases n,
{
    if n < 10 {
        digit_unbroken(n);
    } else {
        nat_text_unbroken(n / 10);
        digit_unbroken(n % 10);
    }
}

proof fn decimal_unbroken(n: int)
    ensures
        unbroken(crate::text::decimal(n)),
{
    reveal_strlit("-");
    if n < 0 {
        nat_text_unbroken(-n);
    } else {
        nat_text_unbroken(n);
    }
}

proof fn json_char_unbroken(c: char)
    ensures
        unbroken(json_char_spec(c)),
{
    reveal_strlit("\\\"");
    reveal_strlit("\\\\");
    reveal_strlit("\\n");
    reveal_strlit("\\r");
    reveal_strlit("\\t");
    reveal_strlit("\\u");
    reveal_strlit("00");
    digit_unbroken(c as int / 16);
    digit_unbroken(c as int % 16);
}

proof fn json_body_unbroken(s: Seq<char>)
    ensures
        unbroken(json_body(s)),
    decreases s.len(),
{
    if s.len() > 0 {
        json_body_unbroken(s.drop_last());
        json_char_unbroken(s.last());
    }
}

/// A JSON string literal has no line break, whatever text it holds.
pub proof fn json_string_is_one_line(s: Seq<char>)
    ensures
        unbroken(json_string_spec(s)),
{
    reveal_strlit("\"");
    json_body_unbroken(s);
}

proof fn span_json_unbroken(path: Seq<char>, start: LineInfo, end: LineInfo)
    ensures
        unbroken(span_json_spec(path, start, end)),
{
    reveal_strlit("{\"file\":");
    reveal_strlit(",\"line\":");
    reveal_strlit(",\"col\":");
    reveal_strlit(",\"end_line\":");
    reveal_strlit(",\"end_col\":");
    reveal_strlit("}");
    json_string_is_one_line(path);
    decimal_unbroken(start.line as int);
    decimal_unbroken(start.column as int);
    decimal_unbroken(end.line as int);
    decimal_unbroken(end.column as int);
}

proof fn span_json_in_map_unbroken(m: Seq<FileEntryView>, span: Span)
    ensures
        unbroken(emit_span_json_with_map_spec(m, span)),
{
    reveal_strlit("{\"file\":null}");
    let k = find_entry(m, span.start as int);
    if k >= 0 {
        let here = local_span(m[k], span);
        span_json_unbroken(
            m[k].path,
            line_info_spec(m[k].source, here.start as int),
            line_info_spec(m[k].source, here.end as int),
        );
    }
}

proof fn json_notes_unbroken(
    notes: Seq<(Span, Seq<char>)>,
    path: Seq<char>,
    source: Seq<char>,
    out: Seq<char>,
    i: int,
)
    requires
        unbroken(out),
        0 <= i <= notes.len(),
    ensures
        unbroken(json_notes_spec(notes, path, source, out, i)),
    decreases notes.len() - i,
{
    if i < notes.len() {
        reveal_strlit(",");
        reveal_strlit("{\"message\":");
        reveal_strlit(",\"span\":");
        reveal_strlit("}");
        json_string_is_one_line(notes[i].1);
        span_json_unbroken(
            path,
            line_info_spec(source, notes[i].0.start as int),
            line_info_spec(source, notes[i].0.end as int),
        );
        let out1 = if i > 0 { out + ","@ } else { out };
        let out2 = out1 + "{\"message\":"@;
        let out3 = out2 + json_string_spec(notes[i].1);
        let out4 = out3 + ",\"span\":"@;
        let out5 = out4 + emit_span_json_spec(path, source, notes[i].0);
        json_notes_unbroken(notes, path, source, out5 + "}"@, i + 1);
    }
}

proof fn json_all_unbroken(
    ds: Seq<DiagnosticView>,
    path: Seq<char>,
    source: Seq<char>,
    out: Seq<char>,
    i: int,
)
    requires
        unbroken(out),
        0 <= i <= ds.len(),
    ensures
        unbroken(json_all_spec(ds, path, source, out, i)),
    decreases ds.len() - i,
{
    if i < ds.len() {
        let d = ds[i];
        reveal_strlit(",");
        reveal_strlit("{\"level\":\"error\",\"message\":");
        reveal_strlit(",\"primary\":");
        reveal_strlit(",\"related\":[");
        reveal_strlit("]");
        reveal_strlit("}");
        json_string_is_one_line(d.message);
        span_json_unbroken(
            path,
            line_info_spec(source, d.span.start as int),
            line_info_spec(source, d.span.end as int),
        );
        let out1 = if i > 0 { out + ","@ } else { out };
        let out2 = out1 + "{\"level\":\"error\",\"message\":"@;
        let out3 = out2 + json_string_spec(d.message);
        let out4 = out3 + ",\"primary\":"@;
        let out5 = out4 + emit_span_json_spec(path, source, d.span);
        let out6 = out5 + ",\"related\":["@;
        json_notes_unbroken(d.related, path, source, out6, 0);
        let out7 = if d.related.len() > 0 {
            json_notes_spec(d.related, path, source, out6, 0) + "]"@
        } else {
            out5
        };
        json_all_unbroken(ds, path, source, out7 + "}"@, i + 1);
    }
}

/// The JSON of a list of diagnostics is one line: it ends with a line break,
/// and has no other.
pub proof fn json_is_one_line(path: Seq<char>, source: Seq<char>, ds: Seq<DiagnosticView>)
    ensures
        format_diagnostics_json_spec(path, source, ds).len() > 0,
        format_diagnostics_json_spec(path, source, ds).last() == '\n',
        unbroken(format_diagnostics_json_spec(path, source, ds).drop_last()),
{
    reveal_strlit("{\"diagnostics\":[");
    reveal_strlit("]}\n");
    let head = "{\"diagnostics\":["@;
    json_all_unbroken(ds, path, source, head, 0);
    let all = json_all_spec(ds, path, source, head, 0);
    let whole = format_diagnostics_json_spec(path, source, ds);
    assert forall|i: int| 0 <= i < whole.drop_last().len() implies #[trigger] whole.drop_last()[i]
        != '\n' by {
        if i < all.len() {
            assert(whole[i] == all[i]);
        }
    }
}

proof fn json_notes_in_map_unbroken(
    notes: Seq<(Span, Seq<char>)>,
    m: Seq<FileEntryView>,
    out: Seq<char>,
    i: int,
)
    requires
        unbroken(out),
        0 <= i <= notes.len(),
    ensures
        unbroken(json_notes_in_map_spec(notes, m, out, i)),
    decreases notes.len() - i,
{
    if i < notes.len() {
        reveal_strlit(",");
        reveal_strlit("{\"message\":");
        reveal_strlit(",\"span\":");
        reveal_strlit("}");
        json_string_is_one_line(notes[i].1);
        span_json_in_map_unbroken(m, notes[i].0);
        let out1 = if i > 0 { out + ","@ } else { out };
        let out2 = out1 + "{\"message\":"@;
        let out3 = out2 + json_string_spec(notes[i].1);
        let out4 = out3 + ",\"span\":"@;
        let out5 = out4 + emit_span_json_with_map_spec(m, notes[i].0);
        json_notes_in_map_unbroken(notes, m, out5 + "}"@, i + 1);
    }
}

proof fn json_all_in_map_unbroken(
    ds: Seq<DiagnosticView>,
    m: Seq<FileEntryView>,
    out: Seq<char>,
    i: int,
)
    requires
        unbroken(out),
        0 <= i <= ds.len(),
    ensures
        unbroken(json_all_in_map_spec(ds, m, out, i)),
    decreases ds.len() - i,
{
    if i < ds.len() {
        let d = ds[i];
        reveal_strlit(",");
        reveal_strlit("{\"level\":\"error\",\"message\":");
        reveal_strlit(",\"primary\":");
        reveal_strlit(",\"related\":[");
        reveal_strlit("]");
        reveal_strlit("}");
        json_string_is_one_line(d.message);
        span_json_in_map_unbroken(m, d.span);
        let out1 = if i > 0 { out + ","@ } else { out };
        let out2 = out1 + "{\"level\":\"error\",\"message\":"@;
        let out3 = out2 + json_string_spec(d.message);
        let out4 = out3 + ",\"primary\":"@;
        let out5 = out4 + emit_span_json_with_map_spec(m, d.span);
        let out6 = out5 + ",\"related\":["@;
        json_notes_in_map_unbroken(d.related, m, out6, 0);
        let out7 = if d.related.len() > 0 {
            json_notes_in_map_spec(d.related, m, out6, 0) + "]"@
        } else {
            out5
        };
        json_all_in_map_unbroken(ds, m, out7 + "}"@, i + 1);
    }
}

/// The JSON of a list of diagnostics against a map of files is one line too.
pub proof fn json_with_files_is_one_line(m: Seq<FileEntryView>, ds: Seq<DiagnosticView>)
    ensures
        format_diagnostics_json_with_files_spec(m, ds).len() > 0,
        format_diagnostics_json_with_files_spec(m, ds).last() == '\n',
        unbroken(format_diagnostics_json_with_files_spec(m, ds).drop_last()),
{
    reveal_strlit("{\"diagnostics\":[");
    reveal_strlit("]}\n");
    let head = "{\"diagnostics\":["@;
    json_all_in_map_unbroken(ds, m, head, 0);
    let all = json_all_in_map_spec(ds, m, head, 0);
    let whole = format_diagnostics_json_with_files_spec(m, ds);
    assert forall|i: int| 0 <= i < whole.drop_last().len() implies #[trigger] whole.drop_last()[i]
        != '\n' by {
        if i < all.len() {
            assert(whole[i] == all[i]);
        }
    }
}

proof fn render_notes_appends(
    notes: Seq<(Span, Seq<char>)>,
    path: Seq<char>,
    source: Seq<char>,
    out: Seq<char>,
    i: int,
)
    requires
        0 <= i <= notes.len(),
    ensures
        render_notes_spec(notes, path, source, out, i) == out + render_notes_spec(
            notes,
            path,
            source,
            Seq::empty(),
            i,
        ),
    decreases notes.len() - i,
{
    if i < notes.len() {
        let one = render_one_spec(path, source, notes[i].0, "note"@, notes[i].1);
        render_notes_appends(notes, path, source, out + one, i + 1);
        render_notes_appends(notes, path, source, Seq::<char>::empty() + one, i + 1);
        let rest = render_notes_spec(notes, path, source, Seq::empty(), i + 1);
        assert(out + one + rest =~= out + (Seq::<char>::empty() + one + rest));
    } else {
        assert(out + Seq::<char>::empty() =~= out);
    }
}

proof fn render_all_appends(
    ds: Seq<DiagnosticView>,
    path: Seq<char>,
    source: Seq<char>,
    out: Seq<char>,
    i: int,
)
    requires
        0 <= i <= ds.len(),
    ensures
        render_all_spec(ds, path, source, out, i) == out + render_all_spec(
            ds,
            path,
            source,
            Seq::empty(),
            i,
        ),
    decreases ds.len() - i,
{
    if i < ds.len() {
        let d = ds[i];
        let one = render_one_spec(path, source, d.span, "error"@, d.message);
        let notes = render_notes_spec(d.related, path, source, Seq::empty(), 0);
        render_notes_appends(d.related, path, source, out + one, 0);
        render_notes_appends(d.related, path, source, Seq::<char>::empty() + one, 0);
        render_all_appends(ds, path, source, out + one + notes, i + 1);
        render_all_appends(ds, path, source, Seq::<char>::empty() + one + notes, i + 1);
        let rest = render_all_spec(ds, path, source, Seq::empty(), i + 1);
        assert(out + one + notes + rest =~= out + (Seq::<char>::empty() + one + notes + rest));
    } else {
        assert(out + Seq::<char>::empty() =~= out);
    }
}

/// A diagnostic is rendered by itself: its primary place, then its notes in
/// order, then the diagnostics behind it.
pub proof fn rendered_one_by_one(
    path: Seq<char>,
    source: Seq<char>,
    ds: Seq<DiagnosticView>,
    i: int,
)
    requires
        0 <= i < ds.len(),
    ensures
        render_all_spec(ds, path, source, Seq::empty(), i) == render_one_spec(
            path,
            source,
            ds[i].span,
            "error"@,
            ds[i].message,
        ) + render_notes_spec(ds[i].related, path, source, Seq::empty(), 0) + render_all_spec(
            ds,
            path,
            source,
            Seq::empty(),
            i + 1,
        ),
{
    let d = ds[i];
    let one = render_one_spec(path, source, d.span, "error"@, d.message);
    let notes = render_notes_spec(d.related, path, source, Seq::empty(), 0);
    assert(Seq::<char>::empty() + one =~= one);
    render_notes_appends(d.related, path, source, one, 0);
    render_all_appends(ds, path, source, one + notes, i + 1);
}

pub broadcast group group_diagnostic_views {
    diagnostics_view_push,
    diagnostics_view_empty,
    diagnostics_view_add,
    diagnostics_view_subrange,
    diagnostics_view_update,
    notes_view_push,
    notes_view_empty,
    notes_view_add,
    notes_view_subrange,
    notes_view_update,
    entries_view_push,
    entries_view_empty,
    entries_view_add,
    entries_view_subrange,
    entries_view_update,
}

} // verus!
