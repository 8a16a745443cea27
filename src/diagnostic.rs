use vstd::prelude::*;

use codespan_reporting::diagnostic::{
    Diagnostic as CsDiagnostic, Label as CsLabel, LabelStyle as CsLabelStyle,
    Severity as CsSeverity,
};

verus! {

/// How serious a diagnostic is; also picks its colors.
#[derive(Debug, Clone, Copy, PartialEq, Eq, Structural)]
pub enum Severity {
    Bug,
    Error,
    Warning,
    Note,
    Help,
}

/// Whether a label marks what the diagnostic is about or supporting context.
#[derive(Debug, Clone, Copy, PartialEq, Eq, Structural)]
pub enum LabelStyle {
    Primary,
    Secondary,
}

/// A message attached to the byte range `range_start..range_end` of a file.
pub struct Label {
    pub style: LabelStyle,
    /// Handle of the file, as registration gave it.
    pub file: usize,
    pub range_start: usize,
    pub range_end: usize,
    pub message: String,
}

pub struct Diagnostic {
    pub severity: Severity,
    pub code: Option<String>,
    pub message: String,
    pub labels: Vec<Label>,
    pub notes: Vec<String>,
}

/// Something that rendering recovered from and reports beside its text.
#[derive(Debug, Clone, Copy, PartialEq, Eq, Structural)]
pub enum RenderWarning {
    /// Label number `label` names `file`, which no registered file has: it was left out.
    UnknownFile { label: usize, file: usize },
}

pub open spec fn codespan_severity(s: Severity) -> CsSeverity {
    match s {
        Severity::Bug => CsSeverity::Bug,
        Severity::Error => CsSeverity::Error,
        Severity::Warning => CsSeverity::Warning,
        Severity::Note => CsSeverity::Note,
        Severity::Help => CsSeverity::Help,
    }
}

pub open spec fn codespan_label_style(s: LabelStyle) -> CsLabelStyle {
    match s {
        LabelStyle::Primary => CsLabelStyle::Primary,
        LabelStyle::Secondary => CsLabelStyle::Secondary,
    }
}

/// A range cut to a text of `len` bytes: the end is kept within the text and
/// the start is kept at or before the end.
pub open spec fn clamped_range(start: usize, end: usize, len: usize) -> (usize, usize) {
    let e = if end <= len { end } else { len };
    let s = if start <= e { start } else { e };
    (s, e)
}

/// The labels whose file is one of the `n` registered ones, in their order.
pub open spec fn known_labels(labels: Seq<Label>, n: nat) -> Seq<Label>
    decreases labels.len(),
{
    if labels.len() == 0 {
        Seq::empty()
    } else {
        let rest = known_labels(labels.drop_last(), n);
        if labels.last().file < n {
            rest.push(labels.last())
        } else {
            rest
        }
    }
}

/// One warning for each label whose file is not registered, in label order.
pub open spec fn unknown_file_warnings(labels: Seq<Label>, n: nat) -> Seq<RenderWarning>
    decreases labels.len(),
{
    if labels.len() == 0 {
        Seq::empty()
    } else {
        let rest = unknown_file_warnings(labels.drop_last(), n);
        if labels.last().file < n {
            rest
        } else {
            rest.push(
                RenderWarning::UnknownFile {
                    label: (labels.len() - 1) as usize,
                    file: labels.last().file,
                },
            )
        }
    }
}

/// Number of labels whose file is not registered.
pub open spec fn unknown_count(labels: Seq<Label>, n: nat) -> nat
    decreases labels.len(),
{
    if labels.len() == 0 {
        0
    } else {
        unknown_count(labels.drop_last(), n) + if labels.last().file < n {
            0nat
        } else {
            1nat
        }
    }
}

/// `cl` is label `l` as codespan takes it, its range cut to the file's `len` bytes.
pub open spec fn label_converted(cl: CsLabel<usize>, l: Label, len: usize) -> bool {
    &&& cl.style == codespan_label_style(l.style)
    &&& cl.file_id == l.file
    &&& cl.range.start == clamped_range(l.range_start, l.range_end, len).0
    &&& cl.range.end == clamped_range(l.range_start, l.range_end, len).1
    &&& cl.message@ == l.message@
}

/// `cd` is `d` as codespan takes it, for files of the byte lengths `lens`:
/// the labels of unregistered files are gone and the others are cut to their file.
pub open spec fn diagnostic_converted(cd: CsDiagnostic<usize>, d: Diagnostic, lens: Seq<usize>) -> bool {
    let kept = known_labels(d.labels@, lens.len());
    &&& cd.severity == codespan_severity(d.severity)
    &&& cd.code == d.code
    &&& cd.message == d.message
    &&& cd.notes == d.notes
    &&& cd.labels@.len() == kept.len()
    &&& forall|i: int|
        0 <= i < kept.len() ==> #[trigger] label_converted(
            cd.labels@[i],
            kept[i],
            lens[kept[i].file as int],
        )
}

/// Every label naming no registered file is reported once and only those are:
/// the warnings number the unknown labels, and every label kept names a
/// registered file.
pub proof fn lemma_unknown_count(labels: Seq<Label>, n: nat)
    ensures
        unknown_file_warnings(labels, n).len() == unknown_count(labels, n),
        known_labels(labels, n).len() + unknown_count(labels, n) == labels.len(),
        forall|i: int|
            0 <= i < known_labels(labels, n).len() ==> #[trigger] known_labels(labels, n)[i].file
                < n,
    decreases labels.len(),
{
    if labels.len() > 0 {
        lemma_unknown_count(labels.drop_last(), n);
    }
}

/// Where every label names a registered file, all are kept and nothing is reported.
pub proof fn lemma_all_known(labels: Seq<Label>, n: nat)
    requires
        forall|i: int| 0 <= i < labels.len() ==> #[trigger] labels[i].file < n,
    ensures
        known_labels(labels, n) == labels,
        unknown_file_warnings(labels, n) == Seq::<RenderWarning>::empty(),
    decreases labels.len(),
{
    if labels.len() > 0 {
        let rest = labels.drop_last();
        assert forall|i: int| 0 <= i < rest.len() implies #[trigger] rest[i].file < n by {
            assert(rest[i] == labels[i]);
        }
        lemma_all_known(rest, n);
        assert(labels.last().file < n);
        assert(rest.push(labels.last()) =~= labels);
    }
}

/// A single label naming an unregistered file leaves the others in place and
/// brings exactly one warning, which names that label and its file.
pub proof fn lemma_one_unknown_file(labels: Seq<Label>, n: nat, k: int)
    requires
        0 <= k < labels.len(),
        labels[k].file >= n,
        forall|i: int| 0 <= i < labels.len() && i != k ==> #[trigger] labels[i].file < n,
    ensures
        unknown_file_warnings(labels, n) == seq![
            RenderWarning::UnknownFile { label: k as usize, file: labels[k].file },
        ],
        known_labels(labels, n) == labels.remove(k),
    decreases labels.len(),
{
    let rest = labels.drop_last();
    if k == labels.len() - 1 {
        assert forall|i: int| 0 <= i < rest.len() implies #[trigger] rest[i].file < n by {
            assert(rest[i] == labels[i]);
        }
        lemma_all_known(rest, n);
        assert(labels.remove(k) =~= rest);
    } else {
        assert forall|i: int| 0 <= i < rest.len() && i != k implies #[trigger] rest[i].file < n by {
            assert(rest[i] == labels[i]);
        }
        lemma_one_unknown_file(rest, n, k);
        assert(labels.last() == labels[labels.len() - 1]);
        assert(labels.last().file < n);
        assert(rest.remove(k).push(labels.last()) =~= labels.remove(k));
    }
}

pub fn to_codespan_severity(s: Severity) -> (r: CsSeverity)
    ensures
        r == codespan_severity(s),
{
    match s {
        Severity::Bug => CsSeverity::Bug,
        Severity::Error => CsSeverity::Error,
        Severity::Warning => CsSeverity::Warning,
        Severity::Note => CsSeverity::Note,
        Severity::Help => CsSeverity::Help,
    }
}

pub fn to_codespan_label_style(s: LabelStyle) -> (r: CsLabelStyle)
    ensures
        r == codespan_label_style(s),
{
    match s {
        LabelStyle::Primary => CsLabelStyle::Primary,
        LabelStyle::Secondary => CsLabelStyle::Secondary,
    }
}

/// Label `label` as codespan takes it, for a file of `len` bytes.
pub fn convert_label(label: &Label, len: usize) -> (r: CsLabel<usize>)
    ensures
        label_converted(r, *label, len),
{
    let end = if label.range_end <= len {
        label.range_end
    } else {
        len
    };
    let start = if label.range_start <= end {
        label.range_start
    } else {
        end
    };
    CsLabel {
        style: to_codespan_label_style(label.style),
        file_id: label.file,
        range: core::ops::Range { start, end },
        message: label.message.clone(),
    }
}

/// The diagnostic as codespan takes it, for files of the byte lengths
/// `file_lens`, and one warning for each label left out for naming no file.
pub fn convert_diagnostic(diagnostic: Diagnostic, file_lens: &Vec<usize>) -> (r: (
    CsDiagnostic<usize>,
    Vec<RenderWarning>,
))
    ensures
        diagnostic_converted(r.0, diagnostic, file_lens@),
        r.1@ == unknown_file_warnings(diagnostic.labels@, file_lens@.len()),
{
    let mut labels: Vec<CsLabel<usize>> = Vec::new();
    let mut warnings: Vec<RenderWarning> = Vec::new();
    let n = file_lens.len();
    let mut i: usize = 0;
    while i < diagnostic.labels.len()
        invariant
            i <= diagnostic.labels@.len(),
            n == file_lens@.len(),
            warnings@ == unknown_file_warnings(diagnostic.labels@.take(i as int), n as nat),
            labels@.len() == known_labels(diagnostic.labels@.take(i as int), n as nat).len(),
            forall|k: int|
                0 <= k < labels@.len() ==> #[trigger] label_converted(
                    labels@[k],
                    known_labels(diagnostic.labels@.take(i as int), n as nat)[k],
                    file_lens@[known_labels(diagnostic.labels@.take(i as int), n as nat)[k].file as int],
                ),
        decreases diagnostic.labels@.len() - i,
    {
        let label = &diagnostic.labels[i];
        let ghost before = diagnostic.labels@.take(i as int);
        assert(diagnostic.labels@.take(i as int + 1).drop_last() =~= before);
        if label.file < n {
            let converted = convert_label(label, file_lens[label.file]);
            labels.push(converted);
        } else {
            warnings.push(RenderWarning::UnknownFile { label: i, file: label.file });
        }
        i = i + 1;
    }
    assert(diagnostic.labels@.take(i as int) =~= diagnostic.labels@);
    let Diagnostic { severity, code, message, labels: _, notes } = diagnostic;
    let converted = CsDiagnostic {
        severity: to_codespan_severity(severity),
        code,
        message,
        labels,
        notes,
    };
    (converted, warnings)
}

} // verus!
