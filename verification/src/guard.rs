//! The depth sentinel that bounds the parser's recursion.

use vstd::prelude::*;
use vstd::string::StringExecFns;
use crate::error::Diagnostic;
use crate::error::ErrorHandler;
use crate::text::decimal_text;
use crate::text::push_decimal;

verus! {

/// The exit status with which a driver terminates after the depth limit
/// was exceeded.
pub const RECURSION_EXIT_STATUS: i32 = 102;

/// The depth limit suggested for builds made for debugging.
pub const MAX_DEPTH_DEBUG: usize = 1000;

/// The depth limit suggested for optimised builds.
pub const MAX_DEPTH_RELEASE: usize = 10000;

/// What is left of a compilation that exceeded the depth limit: the depth
/// that was reached, the limit, and every diagnostic pending at that moment.
pub struct FatalReport {
    pub depth: usize,
    pub max_depth: usize,
    pub errors: Vec<Diagnostic>,
    pub warnings: Vec<Diagnostic>,
}

/// The first line of the report, for the error channel.
pub open spec fn headline_text(depth: nat, max_depth: nat) -> Seq<char> {
    "fatal: maximum recursion depth exceeded ("@ + decimal_text(depth) + " > "@ + decimal_text(
        max_depth,
    ) + ")"@
}

/// The line that shows one pending error.
pub open spec fn error_line_text(d: Diagnostic) -> Seq<char> {
    "- error: "@ + d.code.text()
}

/// The line that shows one pending warning.
pub open spec fn warning_line_text(d: Diagnostic) -> Seq<char> {
    "- warning: "@ + d.code.text()
}

/// The lines that show the pending diagnostics: none if nothing is pending,
/// else a heading, every error, then every warning, each in recorded order.
pub open spec fn pending_text(errors: Seq<Diagnostic>, warnings: Seq<Diagnostic>) -> Seq<
    Seq<char>,
> {
    if errors.len() == 0 && warnings.len() == 0 {
        Seq::empty()
    } else {
        seq!["pending errors:"@] + Seq::new(errors.len(), |i: int| error_line_text(errors[i]))
            + Seq::new(warnings.len(), |i: int| warning_line_text(warnings[i]))
    }
}

/// The texts of a vector of strings.
pub open spec fn texts(lines: Seq<String>) -> Seq<Seq<char>> {
    Seq::new(lines.len(), |i: int| lines[i]@)
}

impl FatalReport {
    /// The status with which the process is to end.
    pub fn exit_status(&self) -> (s: i32)
        ensures
            s == RECURSION_EXIT_STATUS,
    {
        RECURSION_EXIT_STATUS
    }

    /// The line for the error channel.
    pub fn headline(&self) -> (s: String)
        ensures
            s@ == headline_text(self.depth as nat, self.max_depth as nat),
    {
        let mut s = String::from_str("fatal: maximum recursion depth exceeded (");
        push_decimal(&mut s, self.depth as u64);
        s.append(" > ");
        push_decimal(&mut s, self.max_depth as u64);
        s.append(")");
        s
    }

    /// The lines for the output channel.
    pub fn pending_lines(&self) -> (lines: Vec<String>)
        ensures
            texts(lines@) == pending_text(self.errors@, self.warnings@),
    {
        let mut lines: Vec<String> = Vec::new();
        if self.errors.len() == 0 && self.warnings.len() == 0 {
            assert(texts(lines@) =~= pending_text(self.errors@, self.warnings@));
            return lines;
        }
        lines.push(String::from_str("pending errors:"));
        let mut i: usize = 0;
        while i < self.errors.len()
            invariant
                i <= self.errors.len(),
                lines@.len() == 1 + i,
                lines@[0]@ == "pending errors:"@,
                forall|k: int| 0 <= k < i ==> #[trigger] lines@[k + 1]@ == error_line_text(
                    self.errors@[k],
                ),
            decreases self.errors.len() - i,
        {
            let mut line = String::from_str("- error: ");
            line.append(self.errors[i].code.message());
            lines.push(line);
            i = i + 1;
        }
        let mut j: usize = 0;
        while j < self.warnings.len()
            invariant
                j <= self.warnings.len(),
                lines@.len() == 1 + self.errors@.len() + j,
                lines@[0]@ == "pending errors:"@,
                forall|k: int|
                    0 <= k < self.errors@.len() ==> #[trigger] lines@[k + 1]@ == error_line_text(
                        self.errors@[k],
                    ),
                forall|k: int|
                    0 <= k < j ==> #[trigger] lines@[1 + self.errors@.len() + k]@
                        == warning_line_text(self.warnings@[k]),
            decreases self.warnings.len() - j,
        {
            let mut line = String::from_str("- warning: ");
            line.append(self.warnings[j].code.message());
            lines.push(line);
            j = j + 1;
        }
        proof {
            let want = pending_text(self.errors@, self.warnings@);
            let have = texts(lines@);
            assert(have.len() == want.len());
            assert forall|k: int| 0 <= k < have.len() implies have[k] == want[k] by {
                if k == 0 {
                } else if k < 1 + self.errors@.len() {
                    assert(lines@[(k - 1) + 1]@ == error_line_text(self.errors@[k - 1]));
                } else {
                    let m = k - 1 - self.errors@.len();
                    assert(lines@[1 + self.errors@.len() + m]@ == warning_line_text(
                        self.warnings@[m],
                    ));
                }
            }
            assert(have =~= want);
        }
        lines
    }
}

/// A depth on the recursion path and the limit that it must not pass.
pub struct Level {
    pub depth: nat,
    pub max: nat,
}

impl Level {
    /// Whether one more level may be entered.
    pub open spec fn may_enter(self) -> bool {
        self.depth < self.max
    }

    /// The next level.
    pub open spec fn deeper(self) -> Level {
        Level { depth: self.depth + 1, max: self.max }
    }
}

impl View for RecursionGuard {
    type V = Level;

    open spec fn view(&self) -> Level {
        Level { depth: self.depth(), max: self.max_depth() }
    }
}

/// A handle on the recursion path. Its depth is the number of handles live
/// on the path, the root handle included.
#[derive(Clone, Copy, Debug)]
pub struct RecursionGuard {
    depth: usize,
    max_depth: usize,
}

impl RecursionGuard {
    pub closed spec fn depth(&self) -> nat {
        self.depth as nat
    }

    pub closed spec fn max_depth(&self) -> nat {
        self.max_depth as nat
    }

    /// A handle never counts more than its limit, and the limit leaves room
    /// to count one past it.
    pub closed spec fn wf(&self) -> bool {
        1 <= self.depth <= self.max_depth && self.max_depth < usize::MAX
    }

    /// The root handle of a compilation.
    pub fn new(max_depth: usize) -> (g: RecursionGuard)
        requires
            1 <= max_depth < usize::MAX,
        ensures
            g.wf(),
            g.depth() == 1,
            g.max_depth() == max_depth,
    {
        RecursionGuard { depth: 1, max_depth }
    }

    pub fn current_depth(&self) -> (d: usize)
        ensures
            d == self.depth(),
    {
        self.depth
    }

    pub fn limit(&self) -> (d: usize)
        ensures
            d == self.max_depth(),
    {
        self.max_depth
    }

    /// Enters one more level of recursion. Below the limit the result is
    /// the handle of the new level and the handler is untouched; at the
    /// limit it is the report of the failure, which names a depth one
    /// past the limit and holds what the handler held, and the handler is
    /// left empty.
    pub fn recursion_check(&self, error_handler: &mut ErrorHandler) -> (r: Result<
        RecursionGuard,
        FatalReport,
    >)
        requires
            self.wf(),
        ensures
            self.depth() < self.max_depth() ==> {
                &&& r matches Ok(g)
                &&& g.wf()
                &&& g.depth() == self.depth() + 1
                &&& g.max_depth() == self.max_depth()
                &&& final(error_handler).errors() == old(error_handler).errors()
                &&& final(error_handler).warnings() == old(error_handler).warnings()
            },
            self.depth() >= self.max_depth() ==> {
                &&& r matches Err(report)
                &&& report.depth == self.depth() + 1
                &&& report.depth == self.max_depth() + 1
                &&& report.max_depth == self.max_depth()
                &&& report.errors@ == old(error_handler).errors()
                &&& report.warnings@ == old(error_handler).warnings()
                &&& final(error_handler).errors() == Seq::<Diagnostic>::empty()
                &&& final(error_handler).warnings() == Seq::<Diagnostic>::empty()
            },
    {
        let depth: usize = self.depth + 1;
        if depth > self.max_depth {
            Err(RecursionGuard::recursion_check_failed(depth, self.max_depth, error_handler))
        } else {
            Ok(RecursionGuard { depth, max_depth: self.max_depth })
        }
    }

    /// Builds the report of a depth that went past the limit, taking every
    /// pending diagnostic out of the handler.
    pub fn recursion_check_failed(
        depth: usize,
        max_depth: usize,
        error_handler: &mut ErrorHandler,
    ) -> (report: FatalReport)
        ensures
            report.depth == depth,
            report.max_depth == max_depth,
            report.errors@ == old(error_handler).errors(),
            report.warnings@ == old(error_handler).warnings(),
            final(error_handler).errors() == Seq::<Diagnostic>::empty(),
            final(error_handler).warnings() == Seq::<Diagnostic>::empty(),
    {
        let (errors, warnings) = error_handler.drain();
        FatalReport { depth, max_depth, errors, warnings }
    }
}

} // verus!
