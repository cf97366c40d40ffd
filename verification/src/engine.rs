//! The parse executor and result encoder: runs one whole attempt of the
//! grammar engine — register the source under its identity, parse it with the
//! decoded configuration, encode the resulting tree — and on failure collects
//! the attempt's diagnostics.
//!
//! The grammar engine itself (swc) is an external collaborator. One attempt on
//! a fresh engine instance is deterministic in the source text and the
//! configuration bytes, so the attempt's outcome is pinned to named functions
//! of those plain values; what a failure holds is pinned to a named contents
//! sequence of the failure value.

use std::sync::Arc;

use vstd::prelude::*;
use vstd::utf8::encode_utf8;

use swc::{try_with_handler, Compiler, HandlerOpts};
use swc_common::comments::Comments;
use swc_common::errors::{ColorConfig, Level};
use swc_common::{FileName, FilePathMapping, SourceMap};

use crate::bridge::SourceIdentity;
use crate::config::ParseConfig;
use crate::diag::{DiagnosticSet, Severity, TaskError};

verus! {

#[verifier::external_type_specification]
#[verifier::external_body]
pub struct ExFileName(FileName);

#[verifier::external_type_specification]
#[verifier::external_body]
pub struct ExAnyhowError(anyhow::Error);

#[verifier::external_type_specification]
#[verifier::external_body]
#[verifier::reject_recursive_types(T)]
pub struct ExDiagnosticArray<T: core::fmt::Debug + core::fmt::Display>(
    swc_error_reporters::TWithDiagnosticArray<T>,
);

/// Whether one attempt of the grammar engine parses this source under the
/// configuration these bytes decode to, with no fatal diagnostic. One attempt
/// on a fresh engine instance is deterministic in these two values alone.
pub uninterp spec fn attempt_parses(src: Seq<char>, options: Seq<u8>) -> bool;

/// Whether the tree of a successful attempt serializes to transport text.
pub uninterp spec fn attempt_encodes(src: Seq<char>, options: Seq<u8>) -> bool;

/// The serialized tree of a successful attempt: the stable structural
/// encoding, with node kinds and position spans, of the parse of this source
/// under the configuration these bytes decode to.
pub uninterp spec fn attempt_encoding(src: Seq<char>, options: Seq<u8>) -> Seq<char>;

/// What a failed attempt holds: one entry per diagnostic the handler
/// collected, in order — whether it is an error, its message, and the bounds
/// of its primary span.
pub uninterp spec fn failure_contents(
    e: swc_error_reporters::TWithDiagnosticArray<anyhow::Error>,
) -> Seq<(bool, Seq<char>, u32, u32)>;

/// Relies on `swc_common::FileName`: `Real` carries a named path, `Anon` is
/// the anonymity marker; one arm per variant of `SourceIdentity`. The name
/// only attributes diagnostics; it never changes the parse or the tree.
#[verifier::external_body]
fn file_name_of(id: &SourceIdentity) -> FileName {
    match id {
        SourceIdentity::Named(s) => FileName::Real(s.clone().into()),
        SourceIdentity::Anonymous => FileName::Anon,
    }
}

/// Relies on `swc::Compiler::new` over a fresh `swc_common::SourceMap`,
/// `SourceMap::new_source_file`, `swc::Compiler::comments`,
/// `swc::try_with_handler` and `swc::Compiler::parse_js`, then
/// `serde_json::to_string` on the tree and `serde_json::Error`'s `Display`
/// for an encoding failure's cause: one whole attempt on an engine instance
/// private to it. With a fresh instance the outcome is a deterministic
/// function of the source text and of the options — which are themselves a
/// deterministic function of the configuration bytes they were decoded from —
/// while the registration name only attributes diagnostics and the comment
/// store only captures comments, neither changing the tree. The returned
/// offset is where the registration's positions begin.
#[verifier::external_body]
fn run_attempt(cfg: &ParseConfig, name: FileName, src: &String) -> (r: (
    u32,
    Result<Result<String, String>, swc_error_reporters::TWithDiagnosticArray<anyhow::Error>>,
))
    ensures
        r.1 is Ok <==> attempt_parses(src@, cfg.spec_origin()),
        (r.1 matches Ok(inner) ==> (inner is Ok <==> attempt_encodes(src@, cfg.spec_origin()))),
        (r.1 matches Ok(Ok(s)) ==> s@ == attempt_encoding(src@, cfg.spec_origin())),
{
    let c = Compiler::new(Arc::new(SourceMap::new(FilePathMapping::empty())));
    let fm = c.cm.new_source_file(Arc::new(name), src.clone());
    let start = fm.start_pos.0;
    let store = c.comments().clone();
    let com: Option<&dyn Comments> = if cfg.comments { Some(&store) } else { None };
    let opts = HandlerOpts { color: ColorConfig::Never, skip_filename: false };
    let parsed = try_with_handler(c.cm.clone(), opts, |h| {
        c.parse_js(fm, h, cfg.raw.target, cfg.raw.syntax, cfg.raw.is_module, com)
    });
    (start, parsed.map(|p| serde_json::to_string(&p).map_err(|e| format!("{}", e))))
}

/// Relies on `TWithDiagnosticArray::diagnostics`: how many diagnostics the
/// handler collected during the failed attempt.
#[verifier::external_body]
fn failure_diag_count(e: &swc_error_reporters::TWithDiagnosticArray<anyhow::Error>) -> (n: usize)
    ensures
        n == failure_contents(*e).len(),
{
    e.diagnostics().len()
}

/// Relies on the diagnostics array of the failure: whether the i-th collected
/// diagnostic is an error (rather than a warning or a note), its message
/// text, and the bounds of its primary span; a missing span reports as the
/// zero position, a missing entry as an empty error at it.
#[verifier::external_body]
fn failure_diag(e: &swc_error_reporters::TWithDiagnosticArray<anyhow::Error>, i: usize) -> (r: (
    bool,
    String,
    u32,
    u32,
))
    ensures
        i < failure_contents(*e).len() ==> {
            &&& r.0 == failure_contents(*e)[i as int].0
            &&& r.1@ == failure_contents(*e)[i as int].1
            &&& r.2 == failure_contents(*e)[i as int].2
            &&& r.3 == failure_contents(*e)[i as int].3
        },
{
    match e.diagnostics().get(i) {
        None => (true, String::new(), 0, 0),
        Some(d) => {
            let sp = d.span.primary_span().unwrap_or(swc_common::DUMMY_SP);
            let is_error = matches!(d.level, Level::Bug | Level::Fatal | Level::PhaseFatal | Level::Error);
            (is_error, d.message(), sp.lo.0, sp.hi.0)
        },
    }
}

/// Relies on `TWithDiagnosticArray::to_pretty_string`: the failure rendered
/// as readable text.
#[verifier::external_body]
fn failure_pretty(e: swc_error_reporters::TWithDiagnosticArray<anyhow::Error>) -> String {
    e.to_pretty_string()
}

/// The offset of a global position inside a registration that begins at
/// `start`: positions before the start report as offset zero.
fn offset_from(pos: u32, start: u32) -> (r: usize)
    ensures
        start <= pos ==> r == pos - start,
        pos < start ==> r == 0,
{
    if pos >= start {
        (pos - start) as usize
    } else {
        0
    }
}

/// Turn the collected failure of one attempt into the attempt's diagnostic
/// set, mirroring the engine's diagnostics in order: entry for entry the same
/// severity and message, each span taken relative to the registration and
/// kept inside the source. A failure with no collected diagnostics still
/// yields one error diagnostic holding the rendered failure, so a failed
/// attempt never reports an empty set.
fn collect_diagnostics(
    fail: swc_error_reporters::TWithDiagnosticArray<anyhow::Error>,
    start: u32,
    src: &String,
) -> (d: DiagnosticSet)
    ensures
        d.wf(),
        d@.len() >= 1,
        d.spec_limit() == encode_utf8(src@).len() as usize,
        failure_contents(fail).len() > 0 ==> {
            &&& d@.len() == failure_contents(fail).len()
            &&& forall|i: int|
                0 <= i < d@.len() ==> (#[trigger] d@[i]).message@ == failure_contents(fail)[i].1
                    && d@[i].severity == (if failure_contents(fail)[i].0 {
                        Severity::Error
                    } else {
                        Severity::Warning
                    })
        },
{
    let limit: usize = src.as_str().len();
    let mut set = DiagnosticSet::new(limit);
    let n = failure_diag_count(&fail);
    let mut i: usize = 0;
    while i < n
        invariant
            i <= n,
            n == failure_contents(fail).len(),
            set.wf(),
            set.spec_limit() == limit,
            set@.len() == i,
            limit == encode_utf8(src@).len() as usize,
            forall|j: int|
                0 <= j < i ==> (#[trigger] set@[j]).message@ == failure_contents(fail)[j].1
                    && set@[j].severity == (if failure_contents(fail)[j].0 {
                        Severity::Error
                    } else {
                        Severity::Warning
                    }),
        decreases n - i,
    {
        let (is_error, message, lo, hi) = failure_diag(&fail, i);
        let severity = if is_error {
            Severity::Error
        } else {
            Severity::Warning
        };
        let ghost prev = set@;
        set.push(severity, message, offset_from(lo, start), offset_from(hi, start));
        proof {
            assert forall|j: int|
                0 <= j < i as int + 1 implies (#[trigger] set@[j]).message@ == failure_contents(
                fail,
            )[j].1 && set@[j].severity == (if failure_contents(fail)[j].0 {
                Severity::Error
            } else {
                Severity::Warning
            }) by {
                if j < i as int {
                    assert(set@.subrange(0, prev.len() as int)[j] == set@[j]);
                    assert(prev[j].message@ == failure_contents(fail)[j].1);
                } else {
                    assert(set@[j] == set@.last());
                }
            }
        }
        i += 1;
    }
    if set.len() == 0 {
        let message = failure_pretty(fail);
        set.push(Severity::Error, message, 0, limit);
    }
    set
}

/// Run one whole parse attempt: register the source under its identity,
/// invoke the grammar engine with the decoded configuration — capturing
/// comments exactly when the configuration asks for it — and encode the
/// resulting tree.
///
/// Success is owed exactly when the named attempt on (source, configuration
/// bytes) parses and its tree encodes, and the returned text is the named
/// encoding. The executor never reports a configuration error: a failure is
/// either the attempt's non-empty diagnostic set, whose ranges all lie inside
/// the source's byte length, or the encoder's cause on an otherwise valid
/// tree.
pub fn execute(cfg: &ParseConfig, identity: &SourceIdentity, src: &String) -> (r: Result<
    String,
    TaskError,
>)
    ensures
        !(r matches Err(TaskError::ConfigDecode(_))),
        r is Ok <==> attempt_parses(src@, cfg.spec_origin()) && attempt_encodes(
            src@,
            cfg.spec_origin(),
        ),
        (r matches Ok(s) ==> s@ == attempt_encoding(src@, cfg.spec_origin())),
        (r matches Err(TaskError::ParseDiagnostics(d)) ==> {
            &&& !attempt_parses(src@, cfg.spec_origin())
            &&& d.wf()
            &&& d@.len() >= 1
            &&& d.spec_limit() == encode_utf8(src@).len() as usize
        }),
        (r matches Err(TaskError::Encode(_)) ==> attempt_parses(src@, cfg.spec_origin())
            && !attempt_encodes(src@, cfg.spec_origin())),
{
    let name = file_name_of(identity);
    let (start, attempt) = run_attempt(cfg, name, src);
    match attempt {
        Ok(encoded) => match encoded {
            Ok(s) => Ok(s),
            Err(cause) => Err(TaskError::Encode(cause)),
        },
        Err(fail) => Err(TaskError::ParseDiagnostics(collect_diagnostics(fail, start, src))),
    }
}

} // verus!
