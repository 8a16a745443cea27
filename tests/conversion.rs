use codespan_reporting::files::Error as FilesError;
use codespan_reporting::term::DisplayStyle as CsDisplayStyle;
use codespan_reporting::term::termcolor::{Color as TermColor, ColorSpec as TermSpec};
use codespan_reporting::term::Styles as CsStyles;
use codespan_wasm::config::{overlay_chars, overlay_styles, to_codespan_config, to_term_color_spec};
use codespan_wasm::Styles;
use codespan_wasm::diagnostic::{convert_diagnostic, convert_label};
use codespan_wasm::render::finish_render;
use codespan_wasm::{
    Chars, Config, Diagnostic, DisplayStyle, Label, LabelStyle, RenderError, RenderWarning,
    Severity,
};

fn empty_config() -> Config {
    Config {
        display_style: None,
        tab_width: None,
        styles: None,
        chars: None,
        start_context_lines: None,
        end_context_lines: None,
    }
}

#[test]
fn config_defaults_are_codespans() {
    let c = to_codespan_config(empty_config());
    assert!(matches!(c.display_style, CsDisplayStyle::Rich));
    assert_eq!(c.tab_width, 4);
    assert_eq!(c.start_context_lines, 3);
    assert_eq!(c.end_context_lines, 1);
    assert_eq!(c.chars.single_primary_caret, '^');
}

#[test]
fn config_settings_override_defaults() {
    let config = Config {
        display_style: Some(DisplayStyle::Short),
        tab_width: Some(8),
        start_context_lines: Some(0),
        end_context_lines: Some(5),
        ..empty_config()
    };
    let c = to_codespan_config(config);
    assert!(matches!(c.display_style, CsDisplayStyle::Short));
    assert_eq!(c.tab_width, 8);
    assert_eq!(c.start_context_lines, 0);
    assert_eq!(c.end_context_lines, 5);
}

#[test]
fn chars_overlay_keeps_unset_glyphs() {
    let base = codespan_reporting::term::Chars::default();
    let chars = Chars {
        snippet_start: Some("==>".to_string()),
        source_border_left: None,
        source_border_left_break: None,
        note_bullet: Some('*'),
        single_primary_caret: None,
        single_secondary_caret: None,
        multi_primary_caret_start: None,
        multi_primary_caret_end: None,
        multi_secondary_caret_start: None,
        multi_secondary_caret_end: None,
        multi_top_left: None,
        multi_top: None,
        multi_bottom_left: None,
        multi_bottom: None,
        multi_left: None,
        pointer_left: Some('!'),
    };
    let r = overlay_chars(base.clone(), chars);
    assert_eq!(r.snippet_start, "==>");
    assert_eq!(r.note_bullet, '*');
    assert_eq!(r.pointer_left, '!');
    assert_eq!(r.source_border_left, base.source_border_left);
    assert_eq!(r.multi_top_left, base.multi_top_left);
}

#[test]
fn labels_are_cut_to_their_file() {
    let l = Label {
        style: LabelStyle::Secondary,
        file: 0,
        range_start: 9,
        range_end: 40,
        message: "m".to_string(),
    };
    let c = convert_label(&l, 12);
    assert_eq!(c.range, 9..12);
    assert_eq!(c.message, "m");
    let l = Label { range_start: 30, range_end: 40, ..l };
    assert_eq!(convert_label(&l, 12).range, 12..12);
}

#[test]
fn conversion_keeps_known_labels_in_order() {
    let label = |file: usize, message: &str| Label {
        style: LabelStyle::Primary,
        file,
        range_start: 0,
        range_end: 1,
        message: message.to_string(),
    };
    let d = Diagnostic {
        severity: Severity::Note,
        code: None,
        message: "m".to_string(),
        labels: vec![label(1, "b"), label(3, "lost"), label(0, "a"), label(2, "lost too")],
        notes: vec!["n".to_string()],
    };
    let (cd, warnings) = convert_diagnostic(d, &vec![5, 5]);
    let messages: Vec<&str> = cd.labels.iter().map(|l| l.message.as_str()).collect();
    assert_eq!(messages, vec!["b", "a"]);
    assert_eq!(
        warnings,
        vec![
            RenderWarning::UnknownFile { label: 1, file: 3 },
            RenderWarning::UnknownFile { label: 3, file: 2 },
        ]
    );
    assert_eq!(cd.notes, vec!["n".to_string()]);
    assert_eq!(cd.severity, codespan_reporting::diagnostic::Severity::Note);
}

#[test]
fn lookup_failure_becomes_render_error() {
    let r = finish_render(Err(FilesError::FileMissing), vec![]);
    assert!(matches!(r, Err(RenderError::Lookup)));
    let r = finish_render(Ok("text".to_string()), vec![]);
    assert!(matches!(r, Ok(ref out) if out.text == "text" && out.warnings.is_empty()));
}

fn spec(fg: Option<codespan_wasm::Color>, bold: bool) -> codespan_wasm::ColorSpec {
    codespan_wasm::ColorSpec {
        fg_color: fg,
        bg_color: Some(codespan_wasm::Color::White),
        bold,
        intense: false,
        underline: true,
        dimmed: false,
        italic: true,
        reset: false,
    }
}

#[test]
fn color_spec_settings_carry_over() {
    let r = to_term_color_spec(spec(Some(codespan_wasm::Color::Magenta), true));
    let mut expected = TermSpec::new();
    expected
        .set_fg(Some(TermColor::Magenta))
        .set_bg(Some(TermColor::White))
        .set_bold(true)
        .set_underline(true)
        .set_italic(true)
        .set_reset(false);
    assert_eq!(r, expected);
    assert_ne!(r, TermSpec::new());
}

#[test]
fn styles_overlay_replaces_given_roles_only() {
    let base = CsStyles::default();
    let given = spec(Some(codespan_wasm::Color::Green), false);
    let styles = Styles {
        header_bug: None,
        header_error: Some(given),
        header_warning: None,
        header_note: None,
        header_help: None,
        header_message: None,
        primary_label_bug: None,
        primary_label_error: None,
        primary_label_warning: None,
        primary_label_note: None,
        primary_label_help: None,
        secondary_label: None,
        line_number: Some(given),
        source_border: None,
        note_bullet: None,
    };
    let r = overlay_styles(base.clone(), styles);
    assert_eq!(r.header_error, to_term_color_spec(given));
    assert_eq!(r.line_number, to_term_color_spec(given));
    assert_eq!(r.header_bug, base.header_bug);
    assert_eq!(r.secondary_label, base.secondary_label);
}

#[test]
fn default_error_header_is_bold_red() {
    let c = to_codespan_config(empty_config());
    let mut expected = TermSpec::new();
    expected.set_fg(Some(TermColor::Red)).set_bold(true).set_intense(true);
    assert_eq!(c.styles.header_error, expected);
    assert_eq!(c.chars.multi_top_left, '╭');
    assert_eq!(c.chars.multi_bottom_left, '╰');
    assert_eq!(c.chars.single_secondary_caret, '-');
}
