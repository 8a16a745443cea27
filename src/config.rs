use vstd::prelude::*;

use crate::term::{box_drawing_chars, color_spec_of, default_styles, term_color_spec};
use codespan_reporting::term::termcolor::{Color as TermColor, ColorSpec as TermColorSpec};
use codespan_reporting::term::{
    Chars as CsChars, Config as CsConfig, DisplayStyle as CsDisplayStyle, Styles as CsStyles,
};

verus! {

/// How much of the source a rendering shows.
#[derive(Debug, Clone, Copy, PartialEq, Eq, Structural)]
pub enum DisplayStyle {
    /// Header, annotated snippets of source and notes.
    Rich,
    /// Header, one location line per primary label, and notes.
    Medium,
    /// Header and one location line per primary label.
    Short,
}

#[derive(Debug, Clone, Copy, PartialEq, Eq, Structural)]
pub enum Color {
    Black,
    Blue,
    Green,
    Red,
    Cyan,
    Magenta,
    Yellow,
    White,
}

/// Terminal styling for one role of the output.
#[derive(Debug, Clone, Copy, PartialEq, Eq, Structural)]
pub struct ColorSpec {
    pub fg_color: Option<Color>,
    pub bg_color: Option<Color>,
    pub bold: bool,
    pub intense: bool,
    pub underline: bool,
    pub dimmed: bool,
    pub italic: bool,
    pub reset: bool,
}

/// Styling per role; a role left `None` keeps its default.
pub struct Styles {
    pub header_bug: Option<ColorSpec>,
    pub header_error: Option<ColorSpec>,
    pub header_warning: Option<ColorSpec>,
    pub header_note: Option<ColorSpec>,
    pub header_help: Option<ColorSpec>,
    pub header_message: Option<ColorSpec>,
    pub primary_label_bug: Option<ColorSpec>,
    pub primary_label_error: Option<ColorSpec>,
    pub primary_label_warning: Option<ColorSpec>,
    pub primary_label_note: Option<ColorSpec>,
    pub primary_label_help: Option<ColorSpec>,
    pub secondary_label: Option<ColorSpec>,
    pub line_number: Option<ColorSpec>,
    pub source_border: Option<ColorSpec>,
    pub note_bullet: Option<ColorSpec>,
}

/// Glyphs of the output; a glyph left `None` keeps its default.
pub struct Chars {
    pub snippet_start: Option<String>,
    pub source_border_left: Option<char>,
    pub source_border_left_break: Option<char>,
    pub note_bullet: Option<char>,
    pub single_primary_caret: Option<char>,
    pub single_secondary_caret: Option<char>,
    pub multi_primary_caret_start: Option<char>,
    pub multi_primary_caret_end: Option<char>,
    pub multi_secondary_caret_start: Option<char>,
    pub multi_secondary_caret_end: Option<char>,
    pub multi_top_left: Option<char>,
    pub multi_top: Option<char>,
    pub multi_bottom_left: Option<char>,
    pub multi_bottom: Option<char>,
    pub multi_left: Option<char>,
    pub pointer_left: Option<char>,
}

/// Rendering settings; each one left `None` keeps its default.
pub struct Config {
    pub display_style: Option<DisplayStyle>,
    pub tab_width: Option<usize>,
    pub styles: Option<Styles>,
    pub chars: Option<Chars>,
    pub start_context_lines: Option<usize>,
    pub end_context_lines: Option<usize>,
}

/// The value given, or the default where none is.
pub open spec fn or_default<T>(given: Option<T>, default: T) -> T {
    match given {
        Some(v) => v,
        None => default,
    }
}

pub open spec fn codespan_display_style(s: DisplayStyle) -> CsDisplayStyle {
    match s {
        DisplayStyle::Rich => CsDisplayStyle::Rich,
        DisplayStyle::Medium => CsDisplayStyle::Medium,
        DisplayStyle::Short => CsDisplayStyle::Short,
    }
}

pub open spec fn term_color(c: Color) -> TermColor {
    match c {
        Color::Black => TermColor::Black,
        Color::Blue => TermColor::Blue,
        Color::Green => TermColor::Green,
        Color::Red => TermColor::Red,
        Color::Cyan => TermColor::Cyan,
        Color::Magenta => TermColor::Magenta,
        Color::Yellow => TermColor::Yellow,
        Color::White => TermColor::White,
    }
}

/// `r` is `base` with every glyph that `chars` gives put in its place.
pub open spec fn chars_overlaid(r: CsChars, base: CsChars, chars: Chars) -> bool {
    &&& r.snippet_start == or_default(chars.snippet_start, base.snippet_start)
    &&& r.source_border_left == or_default(chars.source_border_left, base.source_border_left)
    &&& r.source_border_left_break == or_default(
        chars.source_border_left_break,
        base.source_border_left_break,
    )
    &&& r.note_bullet == or_default(chars.note_bullet, base.note_bullet)
    &&& r.single_primary_caret == or_default(chars.single_primary_caret, base.single_primary_caret)
    &&& r.single_secondary_caret == or_default(
        chars.single_secondary_caret,
        base.single_secondary_caret,
    )
    &&& r.multi_primary_caret_start == or_default(
        chars.multi_primary_caret_start,
        base.multi_primary_caret_start,
    )
    &&& r.multi_primary_caret_end == or_default(
        chars.multi_primary_caret_end,
        base.multi_primary_caret_end,
    )
    &&& r.multi_secondary_caret_start == or_default(
        chars.multi_secondary_caret_start,
        base.multi_secondary_caret_start,
    )
    &&& r.multi_secondary_caret_end == or_default(
        chars.multi_secondary_caret_end,
        base.multi_secondary_caret_end,
    )
    &&& r.multi_top_left == or_default(chars.multi_top_left, base.multi_top_left)
    &&& r.multi_top == or_default(chars.multi_top, base.multi_top)
    &&& r.multi_bottom_left == or_default(chars.multi_bottom_left, base.multi_bottom_left)
    &&& r.multi_bottom == or_default(chars.multi_bottom, base.multi_bottom)
    &&& r.multi_left == or_default(chars.multi_left, base.multi_left)
    &&& r.pointer_left == or_default(chars.pointer_left, base.pointer_left)
}

/// Terminal color spec of a library color spec, every setting carried over.
pub open spec fn term_spec(spec: ColorSpec) -> TermColorSpec {
    color_spec_of(
        match spec.fg_color {
            Some(c) => Some(term_color(c)),
            None => None,
        },
        match spec.bg_color {
            Some(c) => Some(term_color(c)),
            None => None,
        },
        spec.bold,
        spec.intense,
        spec.underline,
        spec.dimmed,
        spec.italic,
        spec.reset,
    )
}

/// `r` is `base`, or the converted spec where one is given.
pub open spec fn spec_overlaid(r: TermColorSpec, base: TermColorSpec, given: Option<ColorSpec>) -> bool {
    r == match given {
        Some(g) => term_spec(g),
        None => base,
    }
}

/// `r` is `base` with every role that `styles` gives put in its place.
pub open spec fn styles_overlaid(r: CsStyles, base: CsStyles, styles: Styles) -> bool {
    &&& spec_overlaid(r.header_bug, base.header_bug, styles.header_bug)
    &&& spec_overlaid(r.header_error, base.header_error, styles.header_error)
    &&& spec_overlaid(r.header_warning, base.header_warning, styles.header_warning)
    &&& spec_overlaid(r.header_note, base.header_note, styles.header_note)
    &&& spec_overlaid(r.header_help, base.header_help, styles.header_help)
    &&& spec_overlaid(r.header_message, base.header_message, styles.header_message)
    &&& spec_overlaid(r.primary_label_bug, base.primary_label_bug, styles.primary_label_bug)
    &&& spec_overlaid(r.primary_label_error, base.primary_label_error, styles.primary_label_error)
    &&& spec_overlaid(
        r.primary_label_warning,
        base.primary_label_warning,
        styles.primary_label_warning,
    )
    &&& spec_overlaid(r.primary_label_note, base.primary_label_note, styles.primary_label_note)
    &&& spec_overlaid(r.primary_label_help, base.primary_label_help, styles.primary_label_help)
    &&& spec_overlaid(r.secondary_label, base.secondary_label, styles.secondary_label)
    &&& spec_overlaid(r.line_number, base.line_number, styles.line_number)
    &&& spec_overlaid(r.source_border, base.source_border, styles.source_border)
    &&& spec_overlaid(r.note_bullet, base.note_bullet, styles.note_bullet)
}

/// `r` is `base` with every setting that `config` gives put in its place,
/// glyph by glyph and role by role.
pub open spec fn config_overlaid(r: CsConfig, base: CsConfig, config: Config) -> bool {
    &&& r.display_style == match config.display_style {
        Some(s) => codespan_display_style(s),
        None => base.display_style,
    }
    &&& r.tab_width == or_default(config.tab_width, base.tab_width)
    &&& r.start_context_lines == or_default(config.start_context_lines, base.start_context_lines)
    &&& r.end_context_lines == or_default(config.end_context_lines, base.end_context_lines)
    &&& match config.chars {
        Some(chars) => chars_overlaid(r.chars, base.chars, chars),
        None => r.chars == base.chars,
    }
    &&& match config.styles {
        Some(styles) => styles_overlaid(r.styles, base.styles, styles),
        None => r.styles == base.styles,
    }
}

pub fn to_term_color(c: Color) -> (r: TermColor)
    ensures
        r == term_color(c),
{
    match c {
        Color::Black => TermColor::Black,
        Color::Blue => TermColor::Blue,
        Color::Green => TermColor::Green,
        Color::Red => TermColor::Red,
        Color::Cyan => TermColor::Cyan,
        Color::Magenta => TermColor::Magenta,
        Color::Yellow => TermColor::Yellow,
        Color::White => TermColor::White,
    }
}

pub fn to_codespan_display_style(s: DisplayStyle) -> (r: CsDisplayStyle)
    ensures
        r == codespan_display_style(s),
{
    match s {
        DisplayStyle::Rich => CsDisplayStyle::Rich,
        DisplayStyle::Medium => CsDisplayStyle::Medium,
        DisplayStyle::Short => CsDisplayStyle::Short,
    }
}

/// The terminal color spec with every setting of `spec`.
pub fn to_term_color_spec(spec: ColorSpec) -> (r: TermColorSpec)
    ensures
        r == term_spec(spec),
{
    let fg = match spec.fg_color {
        Some(c) => Some(to_term_color(c)),
        None => None,
    };
    let bg = match spec.bg_color {
        Some(c) => Some(to_term_color(c)),
        None => None,
    };
    term_color_spec(
        fg,
        bg,
        spec.bold,
        spec.intense,
        spec.underline,
        spec.dimmed,
        spec.italic,
        spec.reset,
    )
}

fn overlay_spec(target: &mut TermColorSpec, given: Option<ColorSpec>)
    ensures
        spec_overlaid(*final(target), *old(target), given),
{
    if let Some(spec) = given {
        *target = to_term_color_spec(spec);
    }
}

/// `base` with every role that `styles` gives put in its place.
pub fn overlay_styles(base: CsStyles, styles: Styles) -> (r: CsStyles)
    ensures
        styles_overlaid(r, base, styles),
{
    let mut r = base;
    overlay_spec(&mut r.header_bug, styles.header_bug);
    overlay_spec(&mut r.header_error, styles.header_error);
    overlay_spec(&mut r.header_warning, styles.header_warning);
    overlay_spec(&mut r.header_note, styles.header_note);
    overlay_spec(&mut r.header_help, styles.header_help);
    overlay_spec(&mut r.header_message, styles.header_message);
    overlay_spec(&mut r.primary_label_bug, styles.primary_label_bug);
    overlay_spec(&mut r.primary_label_error, styles.primary_label_error);
    overlay_spec(&mut r.primary_label_warning, styles.primary_label_warning);
    overlay_spec(&mut r.primary_label_note, styles.primary_label_note);
    overlay_spec(&mut r.primary_label_help, styles.primary_label_help);
    overlay_spec(&mut r.secondary_label, styles.secondary_label);
    overlay_spec(&mut r.line_number, styles.line_number);
    overlay_spec(&mut r.source_border, styles.source_border);
    overlay_spec(&mut r.note_bullet, styles.note_bullet);
    r
}

fn overlay_char(target: &mut char, given: Option<char>)
    ensures
        *final(target) == or_default(given, *old(target)),
{
    if let Some(c) = given {
        *target = c;
    }
}

/// `base` with every glyph that `chars` gives put in its place.
pub fn overlay_chars(base: CsChars, chars: Chars) -> (r: CsChars)
    ensures
        chars_overlaid(r, base, chars),
{
    let mut r = base;
    let Chars {
        snippet_start,
        source_border_left,
        source_border_left_break,
        note_bullet,
        single_primary_caret,
        single_secondary_caret,
        multi_primary_caret_start,
        multi_primary_caret_end,
        multi_secondary_caret_start,
        multi_secondary_caret_end,
        multi_top_left,
        multi_top,
        multi_bottom_left,
        multi_bottom,
        multi_left,
        pointer_left,
    } = chars;
    if let Some(s) = snippet_start {
        r.snippet_start = s;
    }
    overlay_char(&mut r.source_border_left, source_border_left);
    overlay_char(&mut r.source_border_left_break, source_border_left_break);
    overlay_char(&mut r.note_bullet, note_bullet);
    overlay_char(&mut r.single_primary_caret, single_primary_caret);
    overlay_char(&mut r.single_secondary_caret, single_secondary_caret);
    overlay_char(&mut r.multi_primary_caret_start, multi_primary_caret_start);
    overlay_char(&mut r.multi_primary_caret_end, multi_primary_caret_end);
    overlay_char(&mut r.multi_secondary_caret_start, multi_secondary_caret_start);
    overlay_char(&mut r.multi_secondary_caret_end, multi_secondary_caret_end);
    overlay_char(&mut r.multi_top_left, multi_top_left);
    overlay_char(&mut r.multi_top, multi_top);
    overlay_char(&mut r.multi_bottom_left, multi_bottom_left);
    overlay_char(&mut r.multi_bottom, multi_bottom);
    overlay_char(&mut r.multi_left, multi_left);
    overlay_char(&mut r.pointer_left, pointer_left);
    r
}

/// `base` with every setting that `config` gives put in its place.
pub fn overlay_config(base: CsConfig, config: Config) -> (r: CsConfig)
    ensures
        config_overlaid(r, base, config),
{
    let mut r = base;
    let Config {
        display_style,
        tab_width,
        styles,
        chars,
        start_context_lines,
        end_context_lines,
    } = config;
    if let Some(s) = display_style {
        r.display_style = to_codespan_display_style(s);
    }
    if let Some(w) = tab_width {
        r.tab_width = w;
    }
    if let Some(s) = styles {
        r.styles = overlay_styles(r.styles, s);
    }
    if let Some(c) = chars {
        r.chars = overlay_chars(r.chars, c);
    }
    if let Some(n) = start_context_lines {
        r.start_context_lines = n;
    }
    if let Some(n) = end_context_lines {
        r.end_context_lines = n;
    }
    r
}

/// The full configuration: codespan's defaults (rich display, tabs of 4, three
/// lines shown after a multi-line label's first line and one before its last,
/// box-drawing glyphs, the default styles) with every setting that `config`
/// gives put in its place.
pub fn to_codespan_config(config: Config) -> (r: CsConfig)
    ensures
        exists|base: CsConfig| #[trigger]
            default_config(base) && config_overlaid(r, base, config),
{
    let base = CsConfig::default();
    let r = overlay_config(base, config);
    assert(default_config(base) && config_overlaid(r, base, config));
    r
}

/// codespan's default configuration.
pub open spec fn default_config(base: CsConfig) -> bool {
    &&& base.display_style == CsDisplayStyle::Rich
    &&& box_drawing_chars(base.chars)
    &&& default_styles(base.styles)
    &&& base.tab_width == 4
    &&& base.start_context_lines == 3
    &&& base.end_context_lines == 1
}

/// Styles with no role given leave the base styles as they are.
pub proof fn lemma_unset_styles_keep_base(r: CsStyles, base: CsStyles, styles: Styles)
    requires
        styles_overlaid(r, base, styles),
        styles.header_bug is None && styles.header_error is None && styles.header_warning is None,
        styles.header_note is None && styles.header_help is None && styles.header_message is None,
        styles.primary_label_bug is None && styles.primary_label_error is None,
        styles.primary_label_warning is None && styles.primary_label_note is None,
        styles.primary_label_help is None && styles.secondary_label is None,
        styles.line_number is None && styles.source_border is None && styles.note_bullet is None,
    ensures
        r == base,
{
}

/// A configuration that gives no setting yields the base configuration; with
/// codespan's default as the base, `to_codespan_config` gives that default back.
pub proof fn lemma_unset_config_keeps_base(r: CsConfig, base: CsConfig, config: Config)
    requires
        config_overlaid(r, base, config),
        config.display_style is None && config.tab_width is None,
        config.styles is None && config.chars is None,
        config.start_context_lines is None && config.end_context_lines is None,
    ensures
        r == base,
{
}

} // verus!
