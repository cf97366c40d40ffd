//! The task bridge: the lifecycle of one parse attempt, modelled as a state
//! machine whose transitions never revisit a state, so that the outcome of an
//! attempt is delivered at most once.

use vstd::prelude::*;

use vstd::utf8::encode_utf8;

use crate::config::{config_decodes, decode, decode_cause};
use crate::diag::TaskError;
use crate::engine::{attempt_encodes, attempt_encoding, attempt_parses, execute};

verus! {

/// The identity a source text is registered under: a named, path-like string,
/// or the anonymity marker. Used only for diagnostic attribution.
pub enum SourceIdentity {
    Named(String),
    Anonymous,
}

/// The lifecycle of one parse task.
///
/// A task starts `Created`; once its configuration decodes it is `Scheduled`
/// and then `Running` on a worker; the attempt ends `Succeeded` or `Failed`;
/// handing the stored outcome to the caller makes it `Delivered`. A task whose
/// configuration does not decode goes straight from `Created` to `Failed`.
#[derive(Clone, Copy, Debug, PartialEq, Eq, Structural)]
pub enum TaskState {
    Created,
    Scheduled,
    Running,
    Succeeded,
    Failed,
    Delivered,
}

/// How far along its lifecycle a state lies. Every allowed transition strictly
/// increases the rank, which is why no state is ever revisited.
pub open spec fn rank(s: TaskState) -> int {
    match s {
        TaskState::Created => 0,
        TaskState::Scheduled => 1,
        TaskState::Running => 2,
        TaskState::Succeeded => 3,
        TaskState::Failed => 3,
        TaskState::Delivered => 4,
    }
}

/// The transition relation of the task lifecycle.
pub open spec fn step(a: TaskState, b: TaskState) -> bool {
    ||| (a == TaskState::Created && b == TaskState::Scheduled)
    ||| (a == TaskState::Created && b == TaskState::Failed)
    ||| (a == TaskState::Scheduled && b == TaskState::Running)
    ||| (a == TaskState::Running && b == TaskState::Succeeded)
    ||| (a == TaskState::Running && b == TaskState::Failed)
    ||| (a == TaskState::Succeeded && b == TaskState::Delivered)
    ||| (a == TaskState::Failed && b == TaskState::Delivered)
}

/// A history a task can actually have gone through: it starts `Created` and
/// every consecutive pair is an allowed transition.
pub open spec fn valid_path(h: Seq<TaskState>) -> bool {
    &&& h.len() >= 1
    &&& h[0] == TaskState::Created
    &&& forall|k: int| 0 <= k < h.len() - 1 ==> #[trigger] step(h[k], h[k + 1])
}

/// Every allowed transition strictly increases the rank.
pub proof fn lemma_step_increases_rank(a: TaskState, b: TaskState)
    requires
        step(a, b),
    ensures
        rank(a) < rank(b),
{
}

/// Along a valid history the rank strictly increases.
pub proof fn lemma_path_rank_increases(h: Seq<TaskState>, i: int, j: int)
    requires
        valid_path(h),
        0 <= i < j < h.len(),
    ensures
        rank(h[i]) < rank(h[j]),
    decreases j - i,
{
    let k = j - 1;
    assert(step(h[k], h[k + 1]));
    if i < k {
        lemma_path_rank_increases(h, i, k);
    }
    lemma_step_increases_rank(h[k], h[j]);
}

/// No state is ever revisited: a valid history holds each state at most once.
/// In particular `Delivered` occurs at most once, so the outcome of a task is
/// delivered at most once.
pub proof fn lemma_no_state_revisited(h: Seq<TaskState>)
    requires
        valid_path(h),
    ensures
        forall|i: int, j: int| 0 <= i < j < h.len() ==> h[i] != h[j],
{
    assert forall|i: int, j: int| 0 <= i < j < h.len() implies h[i] != h[j] by {
        lemma_path_rank_increases(h, i, j);
    }
}

/// The outcome of a task is delivered at most once: along any history a task
/// can go through, the `Delivered` state — the point where the stored outcome
/// is handed back — occurs at a single position.
pub proof fn lemma_delivered_at_most_once(h: Seq<TaskState>, i: int, j: int)
    requires
        valid_path(h),
        0 <= i < h.len(),
        0 <= j < h.len(),
        h[i] == TaskState::Delivered,
        h[j] == TaskState::Delivered,
    ensures
        i == j,
{
    if i < j {
        lemma_path_rank_increases(h, i, j);
    } else if j < i {
        lemma_path_rank_increases(h, j, i);
    }
}

/// A task that is still `Created` has no earlier history: a valid path ending
/// in `Created` is exactly the one-state path.
pub proof fn lemma_created_has_no_past(h: Seq<TaskState>)
    requires
        valid_path(h),
        h.last() == TaskState::Created,
    ensures
        h =~= seq![TaskState::Created],
{
    if h.len() > 1 {
        lemma_path_rank_increases(h, 0, h.len() - 1);
    }
}

/// A valid history extended by one allowed transition is a valid history.
pub proof fn lemma_path_extend(h: Seq<TaskState>, s: TaskState)
    requires
        valid_path(h),
        step(h.last(), s),
    ensures
        valid_path(h.push(s)),
{
    let h2 = h.push(s);
    assert(h2[0] == TaskState::Created);
    assert forall|k: int| 0 <= k < h2.len() - 1 implies #[trigger] step(h2[k], h2[k + 1]) by {
        if k < h.len() - 1 {
            assert(step(h[k], h[k + 1]));
            assert(h2[k] == h[k] && h2[k + 1] == h[k + 1]);
        } else {
            assert(h2[k] == h.last() && h2[k + 1] == s);
        }
    }
}

/// One parse task: the unit of work the bridge owns end-to-end.
///
/// A task is constructed with its owned source text, raw configuration bytes
/// and source identity; `compute` runs the one attempt, and `resolve` hands
/// the stored outcome back exactly once. The ghost history records every
/// state the task has gone through, and is always a valid path of the
/// lifecycle.
pub struct ParseTask {
    /// The identity the source is registered under.
    pub filename: SourceIdentity,
    /// The owned source text.
    pub src: String,
    /// The raw configuration bytes, owned until decoded.
    pub options: Vec<u8>,
    state: TaskState,
    outcome: Option<Result<String, TaskError>>,
    history: Ghost<Seq<TaskState>>,
}

impl ParseTask {
    /// The identity the source is registered under.
    pub closed spec fn spec_filename(self) -> SourceIdentity {
        self.filename
    }

    /// The owned source text.
    pub closed spec fn spec_src(self) -> String {
        self.src
    }

    /// The raw configuration bytes.
    pub closed spec fn spec_options(self) -> Vec<u8> {
        self.options
    }

    /// The task's current lifecycle state.
    pub closed spec fn spec_state(self) -> TaskState {
        self.state
    }

    /// The stored outcome, present exactly in the terminal states that
    /// precede delivery.
    pub closed spec fn spec_outcome(self) -> Option<Result<String, TaskError>> {
        self.outcome
    }

    /// Every state the task has gone through, in order.
    pub closed spec fn spec_history(self) -> Seq<TaskState> {
        self.history@
    }

    /// The task's invariant: its history is a valid path of the lifecycle
    /// ending in its current state, and an outcome is stored exactly while
    /// the task is `Succeeded` or `Failed` — a success as `Ok`, a failure as
    /// `Err`.
    pub open spec fn wf(self) -> bool {
        &&& valid_path(self.spec_history())
        &&& self.spec_history().last() == self.spec_state()
        &&& match self.spec_state() {
            TaskState::Succeeded => self.spec_outcome() matches Some(Ok(_)),
            TaskState::Failed => self.spec_outcome() matches Some(Err(_)),
            _ => self.spec_outcome() is None,
        }
    }

    /// A fresh task in the `Created` state, owning its source text and raw
    /// configuration bytes, with nothing decoded, scheduled or run yet.
    pub fn new(filename: SourceIdentity, src: String, options: Vec<u8>) -> (t: ParseTask)
        ensures
            t.wf(),
            t.spec_state() == TaskState::Created,
            t.spec_history() == seq![TaskState::Created],
            t.spec_filename() == filename,
            t.spec_src() == src,
            t.spec_options() == options,
    {
        let t = ParseTask {
            filename,
            src,
            options,
            state: TaskState::Created,
            outcome: None,
            history: Ghost(Seq::empty().push(TaskState::Created)),
        };
        proof {
            assert(t.spec_history() =~= seq![TaskState::Created]);
        }
        t
    }

    /// The current lifecycle state.
    pub fn state(&self) -> (s: TaskState)
        ensures
            s == self.spec_state(),
    {
        self.state
    }

    /// Run the task's one parse attempt.
    ///
    /// From `Created` the task always reaches exactly one terminal outcome:
    /// if the configuration bytes do not decode, it goes straight to `Failed`
    /// with a `ConfigDecode` error and the attempt is never scheduled or run;
    /// if they do decode, it is scheduled, runs once, and ends `Succeeded`
    /// with the encoded tree or `Failed` with the attempt's own error, never
    /// a `ConfigDecode` one. In any other state the task is left untouched.
    pub fn compute(&mut self)
        requires
            old(self).wf(),
        ensures
            final(self).wf(),
            final(self).spec_filename() == old(self).spec_filename(),
            final(self).spec_src() == old(self).spec_src(),
            final(self).spec_options() == old(self).spec_options(),
            old(self).spec_state() != TaskState::Created ==> *final(self) == *old(self),
            old(self).spec_state() == TaskState::Created ==> {
                &&& final(self).spec_outcome() is Some
                &&& (!config_decodes(old(self).spec_options()@) <==> final(self).spec_history()
                    == old(self).spec_history() + seq![TaskState::Failed])
                &&& (!config_decodes(old(self).spec_options()@) ==> (final(self).spec_outcome()
                    matches Some(Err(TaskError::ConfigDecode(m))) && m@ == decode_cause(
                    old(self).spec_options()@,
                )))
                &&& (!config_decodes(old(self).spec_options()@)
                    ==> !final(self).spec_history().contains(TaskState::Running))
                &&& (config_decodes(old(self).spec_options()@) ==> {
                    &&& final(self).spec_history() == old(self).spec_history()
                        + seq![TaskState::Scheduled, TaskState::Running, final(self).spec_state()]
                    &&& !(final(self).spec_outcome() matches Some(
                        Err(TaskError::ConfigDecode(_))))
                    &&& (final(self).spec_state() == TaskState::Succeeded <==> attempt_parses(
                        old(self).spec_src()@,
                        old(self).spec_options()@,
                    ) && attempt_encodes(old(self).spec_src()@, old(self).spec_options()@))
                    &&& (final(self).spec_outcome() matches Some(Ok(s)) ==> s@
                        == attempt_encoding(old(self).spec_src()@, old(self).spec_options()@))
                    &&& (final(self).spec_outcome() matches Some(
                        Err(TaskError::ParseDiagnostics(d)),
                    ) ==> !attempt_parses(old(self).spec_src()@, old(self).spec_options()@))
                    &&& (final(self).spec_outcome() matches Some(Err(TaskError::Encode(_)))
                        ==> attempt_parses(old(self).spec_src()@, old(self).spec_options()@)
                        && !attempt_encodes(old(self).spec_src()@, old(self).spec_options()@))
                })
                &&& (final(self).spec_outcome() matches Some(Err(TaskError::ParseDiagnostics(d)))
                    ==> d.wf() && d@.len() >= 1 && d.spec_limit() == encode_utf8(
                    old(self).spec_src()@,
                ).len() as usize)
            },
    {
        match self.state {
            TaskState::Created => {},
            _ => {
                return;
            },
        }
        match decode(&self.options) {
            Err(cause) => {
                proof {
                    lemma_created_has_no_past(self.history@);
                    lemma_path_extend(self.history@, TaskState::Failed);
                }
                self.history = Ghost(self.history@.push(TaskState::Failed));
                self.state = TaskState::Failed;
                self.outcome = Some(Err(TaskError::ConfigDecode(cause)));
                proof {
                    assert(self.history@ =~= old(self).spec_history() + seq![TaskState::Failed]);
                    assert forall|k: int| 0 <= k < self.history@.len() implies self.history@[k]
                        != TaskState::Running by {}
                    assert(!self.history@.contains(TaskState::Running));
                }
            },
            Ok(cfg) => {
                proof {
                    lemma_path_extend(self.history@, TaskState::Scheduled);
                }
                self.history = Ghost(self.history@.push(TaskState::Scheduled));
                self.state = TaskState::Scheduled;
                proof {
                    lemma_path_extend(self.history@, TaskState::Running);
                }
                self.history = Ghost(self.history@.push(TaskState::Running));
                self.state = TaskState::Running;
                let attempt = execute(&cfg, &self.filename, &self.src);
                let terminal = match &attempt {
                    Ok(_) => TaskState::Succeeded,
                    Err(_) => TaskState::Failed,
                };
                proof {
                    lemma_path_extend(self.history@, terminal);
                }
                self.history = Ghost(self.history@.push(terminal));
                self.state = terminal;
                self.outcome = Some(attempt);
                proof {
                    assert(self.history@ =~= old(self).spec_history() + seq![
                        TaskState::Scheduled,
                        TaskState::Running,
                        terminal,
                    ]);
                    assert(self.history@ != old(self).spec_history() + seq![TaskState::Failed]);
                }
            },
        }
    }

    /// Deliver the stored outcome to the caller, exactly once.
    ///
    /// In a terminal state the outcome is handed back by value and the task
    /// becomes `Delivered`; afterwards — and in every non-terminal state —
    /// there is nothing to deliver and the task is left untouched, so no
    /// second delivery can ever occur.
    pub fn resolve(&mut self) -> (r: Option<Result<String, TaskError>>)
        requires
            old(self).wf(),
        ensures
            final(self).wf(),
            final(self).spec_filename() == old(self).spec_filename(),
            final(self).spec_src() == old(self).spec_src(),
            final(self).spec_options() == old(self).spec_options(),
            (old(self).spec_state() == TaskState::Succeeded || old(self).spec_state()
                == TaskState::Failed) ==> {
                &&& r == old(self).spec_outcome()
                &&& r is Some
                &&& final(self).spec_state() == TaskState::Delivered
                &&& final(self).spec_history() == old(self).spec_history().push(
                    TaskState::Delivered,
                )
            },
            !(old(self).spec_state() == TaskState::Succeeded || old(self).spec_state()
                == TaskState::Failed) ==> *final(self) == *old(self) && r is None,
    {
        match self.state {
            TaskState::Succeeded | TaskState::Failed => {
                proof {
                    lemma_path_extend(self.history@, TaskState::Delivered);
                }
                let out = self.outcome.take();
                self.history = Ghost(self.history@.push(TaskState::Delivered));
                self.state = TaskState::Delivered;
                out
            },
            _ => None,
        }
    }
}

} // verus!
