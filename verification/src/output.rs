use vstd::prelude::*;

verus! {

use std::io::Write;

use crate::optimizer::OptContext;
use crate::scalar::{decimal_digits, Scalar};

/// How often the iteration log speaks.
pub enum Frequency {
    EveryNthIteration(u32),
}

/// A sink the solver reports each iteration to; the flag asks it to ignore
/// its configured frequency and log unconditionally.
pub trait SolverLogger<S: Scalar> {
    fn log(&mut self, context: &OptContext<S>, ignore_frequency: bool);
}

/// Whether an iteration is on the logger's grid: every iteration when the
/// configured stride is zero or one, else every stride-th one.
pub open spec fn on_grid_spec(freq: u32, iteration: u32) -> bool {
    if freq == 0 {
        true
    } else {
        iteration % freq == 0
    }
}

/// Whether a log line is owed: an on-grid iteration when the frequency
/// counts, and any iteration not yet reported when it is ignored.
pub open spec fn should_log_spec(freq: u32, last: u32, iteration: u32, ignore: bool) -> bool {
    (on_grid_spec(freq, iteration) && !ignore) || (ignore && last != iteration)
}

/// A logger that writes one line per reported iteration to standard output:
/// the iteration number, the adapted objective, and the absolute change
/// since the previous iteration.
pub struct StdoutLogger {
    frequency: Frequency,
    last_output_iteration: u32,
}

impl StdoutLogger {
    /// The configured stride of this logger.
    pub closed spec fn freq_spec(&self) -> u32 {
        match self.frequency {
            Frequency::EveryNthIteration(n) => n,
        }
    }

    /// The most recently reported iteration.
    pub closed spec fn last_spec(&self) -> u32 {
        self.last_output_iteration
    }

    /// A logger that speaks every `n`-th iteration and has reported nothing
    /// yet.
    pub fn new(n: u32) -> (r: Self)
        ensures
            r.freq_spec() == n,
            r.last_spec() == 0,
    {
        StdoutLogger { frequency: Frequency::EveryNthIteration(n), last_output_iteration: 0 }
    }
}

impl<S: Scalar> SolverLogger<S> for StdoutLogger {
    /// Writes the line exactly when one is owed, and then remembers the
    /// iteration; otherwise nothing changes.
    fn log(&mut self, context: &OptContext<S>, ignore_frequency: bool)
        ensures
            final(self).freq_spec() == old(self).freq_spec(),
            should_log_spec(
                old(self).freq_spec(),
                old(self).last_spec(),
                context.iteration,
                ignore_frequency,
            ) ==> final(self).last_spec() == context.iteration,
            !should_log_spec(
                old(self).freq_spec(),
                old(self).last_spec(),
                context.iteration,
                ignore_frequency,
            ) ==> final(self).last_spec() == old(self).last_spec(),
    {
        let freq = match self.frequency {
            Frequency::EveryNthIteration(n) => n,
        };
        let on_grid = if freq == 0 {
            true
        } else {
            context.iteration % freq == 0
        };
        if (on_grid && !ignore_frequency) || (ignore_frequency && self.last_output_iteration
            != context.iteration) {
            let mut line = String::from_str("iteration ");
            line.append(decimal_digits(context.iteration as i64).as_str());
            line.append(" | objective ");
            line.append(context.objective_current.describe().as_str());
            line.append(" | change: ");
            line.append(
                context.objective_current.sub(context.objective_previous).abs().describe().as_str(),
            );
            emit_line(line.as_str());
            self.last_output_iteration = context.iteration;
        }
    }
}

/// Relies on std::io::Stdout and the writeln macro: prints the line to
/// standard output and swallows any write error, as a fire-and-forget log.
#[verifier::external_body]
fn emit_line(line: &str) {
    let mut out = std::io::stdout();
    let _ = writeln!(out, "{}", line);
}

} // verus!
