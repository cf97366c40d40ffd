//! A source-to-syntax-tree task bridge.
//!
//! A caller hands in raw source text, a configuration byte buffer and an
//! optional file name; a task decodes the configuration, registers the source,
//! runs one parse attempt of the grammar engine off the caller's thread, and
//! delivers exactly one outcome — the serialized tree or one uniform error —
//! back to the caller.

use vstd::prelude::*;

mod bridge;
mod config;
mod diag;
mod engine;

pub use bridge::{
    lemma_created_has_no_past, lemma_delivered_at_most_once, lemma_no_state_revisited,
    lemma_path_extend, lemma_path_rank_increases, lemma_step_increases_rank, rank, step,
    valid_path, ParseTask, SourceIdentity, TaskState,
};
pub use config::{
    config_comments, config_decodes, config_dialect, config_edition, config_module, decode,
    decode_cause, Dialect, ModuleMode, ParseConfig,
};
pub use diag::{
    dec_digits, digit_char, rendered_diagnostic, rendered_summary, Diagnostic, DiagnosticSet,
    Severity, TaskError,
};
pub use engine::{attempt_encodes, attempt_encoding, attempt_parses, failure_contents};

verus! {

/// Construct one parse task over the given source text and raw configuration
/// bytes: the entry operation of the bridge.
///
/// A present file name becomes the `Named` identity, an absent one the
/// `Anonymous` identity. The task starts `Created`, owning its text and its
/// raw configuration; nothing is decoded, scheduled or run yet.
pub fn parse(src: String, options: Vec<u8>, filename: Option<String>) -> (t: ParseTask)
    ensures
        t.wf(),
        t.spec_state() == TaskState::Created,
        t.spec_history() == seq![TaskState::Created],
        t.spec_src() == src,
        t.spec_options() == options,
        match filename {
            Some(name) => t.spec_filename() == SourceIdentity::Named(name),
            None => t.spec_filename() == SourceIdentity::Anonymous,
        },
{
    let identity = match filename {
        Some(name) => SourceIdentity::Named(name),
        None => SourceIdentity::Anonymous,
    };
    ParseTask::new(identity, src, options)
}

/// One whole attempt, from raw inputs to its delivered outcome: construct the
/// task, run it, and deliver. The caller receives exactly one outcome — a
/// complete serialized tree or one complete error — never zero, never both,
/// and the same outcome for the same source and configuration bytes.
///
/// Configuration bytes that do not decode yield a `ConfigDecode` error with
/// the decode's named cause, and only they do; success is owed exactly when
/// the named attempt parses and its tree encodes, and then the result is the
/// named encoding; a failed attempt on decoded configuration yields its own
/// non-empty diagnostics, every range inside the source's byte length, or the
/// encoder's cause.
pub fn submit(src: String, options: Vec<u8>, filename: Option<String>) -> (r: Result<
    String,
    TaskError,
>)
    ensures
        !config_decodes(options@) <==> r matches Err(TaskError::ConfigDecode(_)),
        (r matches Err(TaskError::ConfigDecode(m)) ==> m@ == decode_cause(options@)),
        r is Ok <==> config_decodes(options@) && attempt_parses(src@, options@)
            && attempt_encodes(src@, options@),
        (r matches Ok(s) ==> s@ == attempt_encoding(src@, options@)),
        (r matches Err(TaskError::ParseDiagnostics(d)) ==> {
            &&& config_decodes(options@)
            &&& !attempt_parses(src@, options@)
            &&& d.wf()
            &&& d@.len() >= 1
            &&& d.spec_limit() == vstd::utf8::encode_utf8(src@).len() as usize
        }),
        (r matches Err(TaskError::Encode(_)) ==> config_decodes(options@) && attempt_parses(
            src@,
            options@,
        ) && !attempt_encodes(src@, options@)),
{
    let mut task = parse(src, options, filename);
    task.compute();
    match task.resolve() {
        Some(outcome) => outcome,
        None => {
            proof {
                assert(false);
            }
            Err(TaskError::ConfigDecode(String::new()))
        },
    }
}

} // verus!
