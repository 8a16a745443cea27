use vstd::prelude::*;

use codespan_reporting::diagnostic::{
    Diagnostic as CsDiagnostic, Label as CsLabel, LabelStyle as CsLabelStyle,
    Severity as CsSeverity,
};
use crate::files::{bytes_of, line_end, line_holds, line_starts_of};
use core::ops::Range;
use codespan_reporting::files::{Error as CsFilesError, Files, SimpleFiles};
use codespan_reporting::term::termcolor::{
    BufferWriter, Color as TermColor, ColorChoice, ColorSpec as TermColorSpec,
};
use codespan_reporting::term::{
    Chars as CsChars, Config as CsConfig, DisplayStyle as CsDisplayStyle, Styles as CsStyles,
};

verus! {

#[verifier::external_type_specification]
pub struct ExSeverity(CsSeverity);

#[verifier::external_type_specification]
pub struct ExLabelStyle(CsLabelStyle);

#[verifier::external_type_specification]
#[verifier::reject_recursive_types(FileId)]
pub struct ExLabel<FileId>(CsLabel<FileId>);

#[verifier::external_type_specification]
#[verifier::reject_recursive_types(FileId)]
pub struct ExDiagnostic<FileId>(CsDiagnostic<FileId>);

#[verifier::external_type_specification]
pub struct ExDisplayStyle(CsDisplayStyle);

#[verifier::external_type_specification]
pub struct ExTermColor(TermColor);

#[verifier::external_type_specification]
#[verifier::external_body]
pub struct ExTermColorSpec(TermColorSpec);

#[verifier::external_type_specification]
pub struct ExStyles(CsStyles);

#[verifier::external_type_specification]
pub struct ExChars(CsChars);

#[verifier::external_type_specification]
pub struct ExConfig(CsConfig);

#[verifier::external_type_specification]
#[verifier::external_body]
pub struct ExFilesError(CsFilesError);

#[verifier::external_type_specification]
#[verifier::external_body]
#[verifier::reject_recursive_types(Name)]
#[verifier::reject_recursive_types(Source)]
pub struct ExSimpleFiles<Name, Source>(SimpleFiles<Name, Source>);

/// codespan's `Config::default`: rich style, tabs of 4, at least three lines
/// shown after the line where a multi-line label begins and one before the line
/// where it ends, the box-drawing glyphs of `Chars::box_drawing`, and the
/// styles of `Styles::default`.
pub assume_specification[ <CsConfig as core::default::Default>::default ]() -> (r: CsConfig)
    ensures
        r.display_style == CsDisplayStyle::Rich,
        r.tab_width == 4,
        r.start_context_lines == 3,
        r.end_context_lines == 1,
        box_drawing_chars(r.chars),
        default_styles(r.styles),
;

/// The glyphs of codespan's `Chars::box_drawing`.
pub open spec fn box_drawing_chars(c: CsChars) -> bool {
    &&& c.snippet_start@ == seq!['┌', '─']
    &&& c.source_border_left == '│'
    &&& c.source_border_left_break == '·'
    &&& c.note_bullet == '='
    &&& c.single_primary_caret == '^'
    &&& c.single_secondary_caret == '-'
    &&& c.multi_primary_caret_start == '^'
    &&& c.multi_primary_caret_end == '^'
    &&& c.multi_secondary_caret_start == '\''
    &&& c.multi_secondary_caret_end == '\''
    &&& c.multi_top_left == '╭'
    &&& c.multi_top == '─'
    &&& c.multi_bottom_left == '╰'
    &&& c.multi_bottom == '─'
    &&& c.multi_left == '│'
    &&& c.pointer_left == '│'
}

/// A color spec with only a foreground color, as `ColorSpec::new().set_fg(..)` gives it.
pub open spec fn fg_only(c: TermColor) -> TermColorSpec {
    color_spec_of(Some(c), None, false, false, false, false, false, true)
}

/// A bold, intense header spec, as `Styles::with_blue` gives it.
pub open spec fn header_spec(fg: Option<TermColor>) -> TermColorSpec {
    color_spec_of(fg, None, true, true, false, false, false, true)
}

/// The styles of `Styles::with_blue` with blue or, on Windows, cyan.
pub open spec fn default_styles(s: CsStyles) -> bool {
    let blue = if s.line_number == fg_only(TermColor::Blue) {
        TermColor::Blue
    } else {
        TermColor::Cyan
    };
    &&& s.header_bug == header_spec(Some(TermColor::Red))
    &&& s.header_error == header_spec(Some(TermColor::Red))
    &&& s.header_warning == header_spec(Some(TermColor::Yellow))
    &&& s.header_note == header_spec(Some(TermColor::Green))
    &&& s.header_help == header_spec(Some(TermColor::Cyan))
    &&& s.header_message == header_spec(None)
    &&& s.primary_label_bug == fg_only(TermColor::Red)
    &&& s.primary_label_error == fg_only(TermColor::Red)
    &&& s.primary_label_warning == fg_only(TermColor::Yellow)
    &&& s.primary_label_note == fg_only(TermColor::Green)
    &&& s.primary_label_help == fg_only(TermColor::Cyan)
    &&& s.secondary_label == fg_only(blue)
    &&& s.line_number == fg_only(blue)
    &&& s.source_border == fg_only(blue)
    &&& s.note_bullet == fg_only(blue)
}

/// The color spec that termcolor's `ColorSpec::new` followed by these setters
/// gives (strikethrough stays off).
pub uninterp spec fn color_spec_of(
    fg: Option<TermColor>,
    bg: Option<TermColor>,
    bold: bool,
    intense: bool,
    underline: bool,
    dimmed: bool,
    italic: bool,
    reset: bool,
) -> TermColorSpec;

/// The files that a `SimpleFiles` holds, as (name, source), in order of their ids.
pub uninterp spec fn files_held(db: SimpleFiles<String, String>) -> Seq<(Seq<char>, Seq<char>)>;

/// The text that codespan's `term::emit` writes for these files, diagnostic and
/// configuration, with ANSI escapes when `color` holds and without otherwise.
pub uninterp spec fn emitted(
    files: Seq<(Seq<char>, Seq<char>)>,
    diagnostic: CsDiagnostic<usize>,
    config: CsConfig,
    color: bool,
) -> Seq<char>;

/// Relies on `SimpleFiles::new`: the database starts empty.
#[verifier::external_body]
pub(crate) fn new_file_db() -> (r: SimpleFiles<String, String>)
    ensures
        files_held(r) == Seq::<(Seq<char>, Seq<char>)>::empty(),
{
    SimpleFiles::new()
}

/// Relies on `SimpleFiles::add`: the file is appended and its id is the number
/// of files held before. `SimpleFile::new` stores the file's line starts in a
/// `Vec<usize>`, so there are at most `usize::MAX` of them.
#[verifier::external_body]
pub(crate) fn add_file(db: &mut SimpleFiles<String, String>, name: String, source: String) -> (r:
    usize)
    ensures
        r == files_held(*old(db)).len(),
        files_held(*final(db)) == files_held(*old(db)).push((name@, source@)),
        line_starts_of(bytes_of(files_held(*final(db))[r as int].1)).len() <= usize::MAX,
{
    db.add(name, source)
}

/// Relies on `SimpleFiles::get` and `SimpleFile::source`: the text of file `id`.
#[verifier::external_body]
pub(crate) fn file_source(db: &SimpleFiles<String, String>, id: usize) -> (r: Result<
    &String,
    CsFilesError,
>)
    ensures
        id < files_held(*db).len() ==> r is Ok && r->Ok_0@ == files_held(*db)[id as int].1,
        id >= files_held(*db).len() ==> r is Err,
{
    db.get(id).map(|f| f.source())
}

/// Relies on `SimpleFiles::get` and `SimpleFile::name`: the name of file `id`.
#[verifier::external_body]
pub(crate) fn file_name(db: &SimpleFiles<String, String>, id: usize) -> (r: Result<
    &String,
    CsFilesError,
>)
    ensures
        id < files_held(*db).len() ==> r is Ok && r->Ok_0@ == files_held(*db)[id as int].0,
        id >= files_held(*db).len() ==> r is Err,
{
    db.get(id).map(|f| f.name())
}

/// Relies on `Files::line_index` of `SimpleFiles`: a binary search of the line
/// starts (`files::line_starts`: 0 and one past each `\n`) for the last one not
/// past `offset`.
#[verifier::external_body]
pub(crate) fn file_line_index(db: &SimpleFiles<String, String>, id: usize, offset: usize) -> (r:
    Result<usize, CsFilesError>)
    ensures
        id < files_held(*db).len() ==> r is Ok && line_holds(
            line_starts_of(bytes_of(files_held(*db)[id as int].1)),
            r->Ok_0 as int,
            offset as int,
        ),
        id >= files_held(*db).len() ==> r is Err,
{
    db.line_index(id, offset)
}

/// File `id` is held and has a line `line`.
pub open spec fn line_in_file(files: Seq<(Seq<char>, Seq<char>)>, id: int, line: int) -> bool {
    &&& 0 <= id < files.len()
    &&& 0 <= line < line_starts_of(bytes_of(files[id].1)).len()
}

/// Relies on `Files::line_range` of `SimpleFiles`: from the line's start to the
/// next line's start, or to the end of the text for the last line; a line past
/// the last is an error.
#[verifier::external_body]
pub(crate) fn file_line_range(db: &SimpleFiles<String, String>, id: usize, line: usize) -> (r:
    Result<Range<usize>, CsFilesError>)
    ensures
        r is Ok == line_in_file(files_held(*db), id as int, line as int),
        r is Ok ==> r->Ok_0.start == line_starts_of(bytes_of(files_held(*db)[id as int].1))[line as int],
        r is Ok ==> r->Ok_0.end == line_end(bytes_of(files_held(*db)[id as int].1), line as int),
{
    db.line_range(id, line)
}

/// Relies on termcolor's `ColorSpec::new` and its setters: a color spec with
/// exactly these settings.
#[verifier::external_body]
pub(crate) fn term_color_spec(
    fg: Option<TermColor>,
    bg: Option<TermColor>,
    bold: bool,
    intense: bool,
    underline: bool,
    dimmed: bool,
    italic: bool,
    reset: bool,
) -> (r: TermColorSpec)
    ensures
        r == color_spec_of(fg, bg, bold, intense, underline, dimmed, italic, reset),
{
    let mut spec = TermColorSpec::new();
    spec.set_fg(fg).set_bg(bg).set_bold(bold).set_intense(intense);
    spec.set_underline(underline).set_dimmed(dimmed).set_italic(italic).set_reset(reset);
    spec
}

/// Relies on codespan's `term::emit` into a termcolor buffer, read back as text.
/// The buffer is in memory, so writing never fails; without labels no file is
/// looked up, so nothing else can fail either. Where every label names a file
/// that is held, no lookup fails: `line_index` never does, `line_range` succeeds
/// for every line that `line_index` returns, and the source is sliced only by
/// line ranges. Label arithmetic in codespan takes each label's start to be at
/// or before its end.
#[verifier::external_body]
pub(crate) fn emit_to_string(
    config: &CsConfig,
    db: &SimpleFiles<String, String>,
    diagnostic: &CsDiagnostic<usize>,
    color: bool,
) -> (r: Result<String, CsFilesError>)
    requires
        forall|i: int|
            0 <= i < diagnostic.labels@.len() ==> #[trigger] diagnostic.labels@[i].range.start
                <= diagnostic.labels@[i].range.end,
    ensures
        r matches Ok(s) ==> s@ == emitted(files_held(*db), *diagnostic, *config, color),
        diagnostic.labels@.len() == 0 ==> r is Ok,
        (forall|i: int|
            0 <= i < diagnostic.labels@.len() ==> #[trigger] diagnostic.labels@[i].file_id
                < files_held(*db).len()) ==> r is Ok,
{
    let choice = if color { ColorChoice::AlwaysAnsi } else { ColorChoice::Never };
    let mut buffer = BufferWriter::stderr(choice).buffer();
    codespan_reporting::term::emit(&mut buffer, config, db, diagnostic)?;
    Ok(String::from_utf8_lossy(buffer.as_slice()).into_owned())
}

} // verus!
