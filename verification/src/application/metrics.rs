//! How the interactions went, counted.
use vstd::prelude::*;

verus! {

/// Totals over all interactions. A total that leaves the range of its type starts
/// again from zero.
#[derive(Clone, Copy, Debug, PartialEq, Eq, Structural)]
pub struct InteractionMetrics {
    pub interactions_total: u64,
    pub successful_interactions_total: u64,
    pub process_errors_total: u64,
    pub reply_errors_total: u64,
    pub typing_reaction_errors_total: u64,
    pub typing_reaction_ms_total: u64,
    pub processing_ms_total: u64,
    pub reply_ms_total: u64,
    pub total_ms_total: u64,
    pub max_total_ms: u64,
}

/// The totals at one moment.
#[derive(Clone, Copy, Debug, PartialEq, Eq, Structural)]
pub struct InteractionMetricsSnapshot {
    pub interactions_total: u64,
    pub successful_interactions_total: u64,
    pub process_errors_total: u64,
    pub reply_errors_total: u64,
    pub typing_reaction_errors_total: u64,
    pub typing_reaction_ms_total: u64,
    pub processing_ms_total: u64,
    pub reply_ms_total: u64,
    pub total_ms_total: u64,
    pub max_total_ms: u64,
}

/// One interaction.
#[derive(Clone, Copy, Debug, PartialEq, Eq, Structural)]
pub struct InteractionSample {
    pub typing_reaction_ok: bool,
    pub process_ok: bool,
    pub reply_ok: bool,
    pub typing_reaction_ms: u64,
    pub processing_ms: u64,
    pub reply_ms: u64,
    pub total_ms: u64,
}

/// The sum, in the range of the type.
pub open spec fn wrapped(total: u64, more: u64) -> u64 {
    if total + more > u64::MAX {
        (total + more - u64::MAX - 1) as u64
    } else {
        (total + more) as u64
    }
}

/// The total with one more, if the condition holds.
pub open spec fn counted(total: u64, condition: bool) -> u64 {
    if condition {
        wrapped(total, 1)
    } else {
        total
    }
}

impl InteractionMetrics {
    /// The totals with one more interaction.
    pub open spec fn with(self, sample: InteractionSample) -> InteractionMetrics {
        InteractionMetrics {
            interactions_total: wrapped(self.interactions_total, 1),
            successful_interactions_total: counted(
                self.successful_interactions_total,
                sample.process_ok && sample.reply_ok,
            ),
            process_errors_total: counted(self.process_errors_total, !sample.process_ok),
            reply_errors_total: counted(self.reply_errors_total, !sample.reply_ok),
            typing_reaction_errors_total: counted(
                self.typing_reaction_errors_total,
                !sample.typing_reaction_ok,
            ),
            typing_reaction_ms_total: wrapped(
                self.typing_reaction_ms_total,
                sample.typing_reaction_ms,
            ),
            processing_ms_total: wrapped(self.processing_ms_total, sample.processing_ms),
            reply_ms_total: wrapped(self.reply_ms_total, sample.reply_ms),
            total_ms_total: wrapped(self.total_ms_total, sample.total_ms),
            max_total_ms: if self.max_total_ms < sample.total_ms {
                sample.total_ms
            } else {
                self.max_total_ms
            },
        }
    }

    /// The same totals.
    pub open spec fn totals(self) -> InteractionMetricsSnapshot {
        InteractionMetricsSnapshot {
            interactions_total: self.interactions_total,
            successful_interactions_total: self.successful_interactions_total,
            process_errors_total: self.process_errors_total,
            reply_errors_total: self.reply_errors_total,
            typing_reaction_errors_total: self.typing_reaction_errors_total,
            typing_reaction_ms_total: self.typing_reaction_ms_total,
            processing_ms_total: self.processing_ms_total,
            reply_ms_total: self.reply_ms_total,
            total_ms_total: self.total_ms_total,
            max_total_ms: self.max_total_ms,
        }
    }

    /// An interaction counts as a success or as a failure of its parts, never as
    /// both, and as each at most once.
    pub open spec fn consistent(self) -> bool {
        &&& self.successful_interactions_total + self.process_errors_total
            <= self.interactions_total
        &&& self.successful_interactions_total + self.reply_errors_total <= self.interactions_total
        &&& self.interactions_total <= self.successful_interactions_total
            + self.process_errors_total + self.reply_errors_total
        &&& self.typing_reaction_errors_total <= self.interactions_total
    }

    /// No interaction yet.
    pub open spec fn none() -> InteractionMetrics {
        InteractionMetrics {
            interactions_total: 0,
            successful_interactions_total: 0,
            process_errors_total: 0,
            reply_errors_total: 0,
            typing_reaction_errors_total: 0,
            typing_reaction_ms_total: 0,
            processing_ms_total: 0,
            reply_ms_total: 0,
            total_ms_total: 0,
            max_total_ms: 0,
        }
    }

    /// No interaction yet.
    pub fn new() -> (out: Self)
        ensures
            out == InteractionMetrics::none(),
            out.consistent(),
    {
        InteractionMetrics {
            interactions_total: 0,
            successful_interactions_total: 0,
            process_errors_total: 0,
            reply_errors_total: 0,
            typing_reaction_errors_total: 0,
            typing_reaction_ms_total: 0,
            processing_ms_total: 0,
            reply_ms_total: 0,
            total_ms_total: 0,
            max_total_ms: 0,
        }
    }

    /// Counts one more interaction, and gives the totals with it.
    pub fn record(&mut self, sample: InteractionSample) -> (out: InteractionMetricsSnapshot)
        ensures
            *final(self) == old(self).with(sample),
            out == final(self).totals(),
    {
        self.interactions_total = self.interactions_total.wrapping_add(1);
        if sample.process_ok && sample.reply_ok {
            self.successful_interactions_total = self.successful_interactions_total.wrapping_add(1);
        }
        if !sample.process_ok {
            self.process_errors_total = self.process_errors_total.wrapping_add(1);
        }
        if !sample.reply_ok {
            self.reply_errors_total = self.reply_errors_total.wrapping_add(1);
        }
        if !sample.typing_reaction_ok {
            self.typing_reaction_errors_total = self.typing_reaction_errors_total.wrapping_add(1);
        }
        self.typing_reaction_ms_total = self.typing_reaction_ms_total.wrapping_add(
            sample.typing_reaction_ms,
        );
        self.processing_ms_total = self.processing_ms_total.wrapping_add(sample.processing_ms);
        self.reply_ms_total = self.reply_ms_total.wrapping_add(sample.reply_ms);
        self.total_ms_total = self.total_ms_total.wrapping_add(sample.total_ms);
        if self.max_total_ms < sample.total_ms {
            self.max_total_ms = sample.total_ms;
        }
        self.snapshot()
    }

    /// The totals at this moment.
    pub fn snapshot(&self) -> (out: InteractionMetricsSnapshot)
        ensures
            out == self.totals(),
    {
        InteractionMetricsSnapshot {
            interactions_total: self.interactions_total,
            successful_interactions_total: self.successful_interactions_total,
            process_errors_total: self.process_errors_total,
            reply_errors_total: self.reply_errors_total,
            typing_reaction_errors_total: self.typing_reaction_errors_total,
            typing_reaction_ms_total: self.typing_reaction_ms_total,
            processing_ms_total: self.processing_ms_total,
            reply_ms_total: self.reply_ms_total,
            total_ms_total: self.total_ms_total,
            max_total_ms: self.max_total_ms,
        }
    }
}

/// Counting keeps the totals consistent, and the greatest time is never below a
/// time that was counted, as long as the number of interactions is in range.
pub proof fn law_counting_stays_consistent(
    metrics: InteractionMetrics,
    sample: InteractionSample,
)
    requires
        metrics.consistent(),
        metrics.interactions_total < u64::MAX,
    ensures
        metrics.with(sample).consistent(),
        metrics.with(sample).interactions_total == metrics.interactions_total + 1,
        metrics.with(sample).max_total_ms >= sample.total_ms,
        metrics.with(sample).max_total_ms >= metrics.max_total_ms,
{
}

/// The mean of some times, rounded down; nothing if there are none.
pub fn average_ms(total_ms: u64, count: u64) -> (out: u64)
    ensures
        count == 0 ==> out == 0,
        count > 0 ==> out == total_ms / count,
{
    if count == 0 {
        0
    } else {
        total_ms / count
    }
}

/// How an interaction went, in a word.
pub fn interaction_outcome(process_ok: bool, reply_ok: bool) -> (out: &'static str)
    ensures
        out@ == (if process_ok && reply_ok {
            "ok"@
        } else if reply_ok {
            "handled-error"@
        } else if process_ok {
            "reply-failed"@
        } else {
            "reply-failed-after-error"@
        }),
{
    match (process_ok, reply_ok) {
        (true, true) => "ok",
        (false, true) => "handled-error",
        (true, false) => "reply-failed",
        (false, false) => "reply-failed-after-error",
    }
}

} // verus!
