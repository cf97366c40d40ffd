//! Diagnostics of one parse attempt, and the uniform error a task delivers.
//!
//! A `DiagnosticSet` belongs to exactly one attempt: it is created fresh for
//! the attempt, filled from what the grammar engine reported, and either
//! discarded (success) or promoted whole into the attempt's failure value. Its
//! invariant keeps every position range inside the registered source.

use vstd::prelude::*;
use vstd::string::StringExecFns;

verus! {

/// How severe one diagnostic is.
#[derive(Clone, Copy, Debug, PartialEq, Eq, Structural)]
pub enum Severity {
    Error,
    Warning,
}

/// One diagnostic: a severity, a message, and a position range in the source.
#[derive(Debug)]
pub struct Diagnostic {
    pub severity: Severity,
    pub message: String,
    /// Start of the range, an offset into the registered source.
    pub lo: usize,
    /// End of the range, never before `lo`.
    pub hi: usize,
}

impl Diagnostic {
    /// The range lies inside a source of length `limit`.
    pub open spec fn in_range(self, limit: nat) -> bool {
        self.lo <= self.hi <= limit
    }
}

/// The ordered diagnostics of exactly one parse attempt.
#[derive(Debug)]
pub struct DiagnosticSet {
    diags: Vec<Diagnostic>,
    limit: usize,
}

impl View for DiagnosticSet {
    type V = Seq<Diagnostic>;

    closed spec fn view(&self) -> Seq<Diagnostic> {
        self.diags@
    }
}

/// The digit character of one decimal digit.
pub open spec fn digit_char(d: nat) -> char {
    if d == 0 {
        '0'
    } else if d == 1 {
        '1'
    } else if d == 2 {
        '2'
    } else if d == 3 {
        '3'
    } else if d == 4 {
        '4'
    } else if d == 5 {
        '5'
    } else if d == 6 {
        '6'
    } else if d == 7 {
        '7'
    } else if d == 8 {
        '8'
    } else {
        '9'
    }
}

/// The decimal digits of `n`, most significant first.
pub open spec fn dec_digits(n: nat) -> Seq<char>
    decreases n,
{
    if n < 10 {
        seq![digit_char(n)]
    } else {
        dec_digits(n / 10) + seq![digit_char(n % 10)]
    }
}

/// One diagnostic rendered: its message followed by its position range.
pub open spec fn rendered_diagnostic(d: Diagnostic) -> Seq<char> {
    d.message@ + seq![' ', '['] + dec_digits(d.lo as nat) + seq![',', ' '] + dec_digits(
        d.hi as nat,
    ) + seq![']', '\n']
}

/// A sequence of diagnostics rendered as one text, in order: each message
/// with its position range on its own line.
pub open spec fn rendered_summary(s: Seq<Diagnostic>) -> Seq<char>
    decreases s.len(),
{
    if s.len() == 0 {
        Seq::empty()
    } else {
        rendered_summary(s.drop_last()) + rendered_diagnostic(s.last())
    }
}

/// The one-character text of one decimal digit.
fn digit_str(d: usize) -> (r: &'static str)
    requires
        d < 10,
    ensures
        r@ == seq![digit_char(d as nat)],
{
    let s: &'static str = match d {
        0 => "0",
        1 => "1",
        2 => "2",
        3 => "3",
        4 => "4",
        5 => "5",
        6 => "6",
        7 => "7",
        8 => "8",
        _ => "9",
    };
    proof {
        reveal_strlit("0");
        reveal_strlit("1");
        reveal_strlit("2");
        reveal_strlit("3");
        reveal_strlit("4");
        reveal_strlit("5");
        reveal_strlit("6");
        reveal_strlit("7");
        reveal_strlit("8");
        reveal_strlit("9");
    }
    s
}

/// Append the decimal rendering of `n` to the text.
fn push_decimal(out: &mut String, n: usize)
    ensures
        final(out)@ == old(out)@ + dec_digits(n as nat),
    decreases n,
{
    if n >= 10 {
        push_decimal(out, n / 10);
    }
    out.append(digit_str(n % 10));
    proof {
        assert(out@ =~= old(out)@ + dec_digits(n as nat));
    }
}

impl DiagnosticSet {
    /// The length of the source this set's ranges are measured against.
    pub closed spec fn spec_limit(self) -> usize {
        self.limit
    }

    /// Every recorded range lies inside the source.
    pub open spec fn wf(self) -> bool {
        forall|i: int|
            0 <= i < self@.len() ==> (#[trigger] self@[i]).in_range(self.spec_limit() as nat)
    }

    /// A fresh, empty set for one attempt on a source of length `limit`.
    pub fn new(limit: usize) -> (s: DiagnosticSet)
        ensures
            s.wf(),
            s@.len() == 0,
            s.spec_limit() == limit,
    {
        DiagnosticSet { diags: Vec::new(), limit }
    }

    pub fn len(&self) -> (n: usize)
        ensures
            n == self@.len(),
    {
        self.diags.len()
    }

    pub fn get(&self, i: usize) -> (d: &Diagnostic)
        requires
            i < self@.len(),
        ensures
            *d == self@[i as int],
    {
        &self.diags[i]
    }

    pub fn limit(&self) -> (n: usize)
        ensures
            n == self.spec_limit(),
    {
        self.limit
    }

    /// Record one diagnostic at the end of the set. The range is put in order
    /// and clamped into the source; a range that already lies inside the
    /// source is kept exactly.
    pub fn push(&mut self, severity: Severity, message: String, lo: usize, hi: usize)
        requires
            old(self).wf(),
        ensures
            final(self).wf(),
            final(self).spec_limit() == old(self).spec_limit(),
            final(self)@.len() == old(self)@.len() + 1,
            final(self)@.subrange(0, old(self)@.len() as int) == old(self)@,
            final(self)@.last().severity == severity,
            final(self)@.last().message@ == message@,
            final(self)@.last().in_range(old(self).spec_limit() as nat),
            lo <= hi <= old(self).spec_limit() ==> final(self)@.last().lo == lo
                && final(self)@.last().hi == hi,
    {
        let a = if lo <= hi {
            lo
        } else {
            hi
        };
        let b = if lo <= hi {
            hi
        } else {
            lo
        };
        let a = if a <= self.limit {
            a
        } else {
            self.limit
        };
        let b = if b <= self.limit {
            b
        } else {
            self.limit
        };
        self.diags.push(Diagnostic { severity, message, lo: a, hi: b });
        proof {
            assert(final(self)@.subrange(0, old(self)@.len() as int) =~= old(self)@);
        }
    }

    /// The attempt's diagnostics rendered as one text, in the order they were
    /// recorded: each message with its position range on its own line.
    pub fn summary(&self) -> (r: String)
        ensures
            r@ == rendered_summary(self@),
    {
        let mut out = String::new();
        let mut i: usize = 0;
        while i < self.diags.len()
            invariant
                i <= self.diags@.len(),
                out@ == rendered_summary(self.diags@.take(i as int)),
            decreases self.diags@.len() - i,
        {
            out.append(self.diags[i].message.as_str());
            out.append(" [");
            push_decimal(&mut out, self.diags[i].lo);
            out.append(", ");
            push_decimal(&mut out, self.diags[i].hi);
            out.append("]\n");
            proof {
                let t = self.diags@.take(i as int + 1);
                assert(t.drop_last() =~= self.diags@.take(i as int));
                assert(t.last() == self.diags@[i as int]);
                reveal_strlit(" [");
                reveal_strlit(", ");
                reveal_strlit("]\n");
                assert((" [")@ =~= seq![' ', '[']);
                assert((", ")@ =~= seq![',', ' ']);
                assert(("]\n")@ =~= seq![']', '\n']);
                assert(out@ =~= rendered_summary(self.diags@.take(i as int + 1)));
            }
            i += 1;
        }
        proof {
            assert(self.diags@.take(self.diags@.len() as int) =~= self.diags@);
        }
        out
    }
}

/// The one uniform error value a task delivers: a configuration decode
/// failure, the diagnostics of a failed parse attempt, or an encoding failure
/// on an otherwise valid tree.
#[derive(Debug)]
pub enum TaskError {
    /// The configuration bytes did not decode; carries the cause.
    ConfigDecode(String),
    /// The parse attempt failed; carries the attempt's diagnostics.
    ParseDiagnostics(DiagnosticSet),
    /// The tree could not be serialized; carries the cause.
    Encode(String),
}

impl TaskError {
    /// The error rendered as readable text.
    pub fn summary(&self) -> (r: String)
        ensures
            (self matches TaskError::ConfigDecode(m) ==> r@ == m@),
            (self matches TaskError::ParseDiagnostics(d) ==> r@ == rendered_summary(d@)),
            (self matches TaskError::Encode(m) ==> r@ == m@),
    {
        match self {
            TaskError::ConfigDecode(m) => m.clone(),
            TaskError::ParseDiagnostics(d) => d.summary(),
            TaskError::Encode(m) => m.clone(),
        }
    }
}

} // verus!
