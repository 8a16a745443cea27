use vstd::prelude::*;

use crate::config::{config_overlaid, default_config, to_codespan_config, Config};
use crate::diagnostic::{
    convert_diagnostic, diagnostic_converted, known_labels, label_converted, lemma_unknown_count, unknown_file_warnings,
    Diagnostic, RenderWarning,
};
use crate::files::{bytes_of, FileRegistry, SourceFile};
use crate::term::{emit_to_string, emitted};
use codespan_reporting::diagnostic::Diagnostic as CsDiagnostic;
use codespan_reporting::files::Error as CsFilesError;
use codespan_reporting::term::Config as CsConfig;

verus! {

/// The formatted diagnostic and what was recovered from on the way.
pub struct RenderOutput {
    pub text: String,
    pub warnings: Vec<RenderWarning>,
}

/// Why rendering stopped without output.
#[derive(Debug, Clone, Copy, PartialEq, Eq, Structural)]
pub enum RenderError {
    /// A line or offset that a label needs could not be looked up in its file.
    Lookup,
}

/// The files as (name, text), in the order that gives their handles.
pub open spec fn files_view(files: Seq<SourceFile>) -> Seq<(Seq<char>, Seq<char>)> {
    files.map_values(|f: SourceFile| (f.name@, f.text@))
}

/// Byte length of each file's text, by handle.
pub open spec fn file_lens(files: Seq<SourceFile>) -> Seq<usize> {
    files.map_values(|f: SourceFile| bytes_of(f.text@).len() as usize)
}

/// Renders `diagnostic` against `files`, whose handles are their positions,
/// with the settings of `config` over the defaults; with ANSI color escapes
/// when `color` holds. Labels naming no file are left out, one warning each;
/// every other label is cut to its file, so rendering always succeeds.
pub fn render(files: &Vec<SourceFile>, diagnostic: Diagnostic, config: Config, color: bool) -> (r:
    Result<RenderOutput, RenderError>)
    ensures
        r is Ok,
        r matches Ok(out) ==> {
            &&& out.warnings@ == unknown_file_warnings(diagnostic.labels@, files@.len())
            &&& exists|cd: CsDiagnostic<usize>, cc: CsConfig|
                {
                    &&& diagnostic_converted(cd, diagnostic, file_lens(files@))
                    &&& exists|base: CsConfig| #[trigger]
                        default_config(base) && config_overlaid(cc, base, config)
                    &&& #[trigger] emitted(files_view(files@), cd, cc, color) == out.text@
                }
        },
{
    let mut registry = FileRegistry::new();
    let mut lens: Vec<usize> = Vec::new();
    let mut i: usize = 0;
    while i < files.len()
        invariant
            i <= files@.len(),
            registry.wf(),
            registry@ == files_view(files@.take(i as int)),
            lens@ == file_lens(files@.take(i as int)),
        decreases files@.len() - i,
    {
        let file = &files[i];
        let len = file.text.as_str().as_bytes().len();
        lens.push(len);
        registry.register(file.name.clone(), file.text.clone());
        i = i + 1;
        assert(registry@ =~= files_view(files@.take(i as int)));
        assert(lens@ =~= file_lens(files@.take(i as int)));
    }
    assert(files@.take(i as int) =~= files@);
    let ghost given = diagnostic;
    let (cd, warnings) = convert_diagnostic(diagnostic, &lens);
    let cc = to_codespan_config(config);
    proof {
        let kept = known_labels(given.labels@, lens@.len());
        assert forall|k: int| 0 <= k < cd.labels@.len() implies #[trigger] cd.labels@[k].range.start
            <= cd.labels@[k].range.end by {
            assert(label_converted(cd.labels@[k], kept[k], lens@[kept[k].file as int]));
        }
        lemma_unknown_count(given.labels@, lens@.len());
        assert forall|k: int| 0 <= k < cd.labels@.len() implies #[trigger] cd.labels@[k].file_id
            < registry@.len() by {
            assert(label_converted(cd.labels@[k], kept[k], lens@[kept[k].file as int]));
            assert(kept[k].file < lens@.len());
        }
    }
    finish_render(emit_to_string(&cc, registry.files_db(), &cd, color), warnings)
}

/// The rendering's result from what codespan returned: its text with the
/// warnings, or `Lookup` where it could not look up what a label needs.
pub fn finish_render(result: Result<String, CsFilesError>, warnings: Vec<RenderWarning>) -> (r:
    Result<RenderOutput, RenderError>)
    ensures
        result is Ok <==> r is Ok,
        r matches Ok(out) ==> out.text == result->Ok_0 && out.warnings == warnings,
        r is Err ==> r == Err::<RenderOutput, RenderError>(RenderError::Lookup),
{
    match result {
        Ok(text) => Ok(RenderOutput { text, warnings }),
        Err(_) => Err(RenderError::Lookup),
    }
}

} // verus!
