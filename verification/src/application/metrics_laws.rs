//! What is counted of every interaction.
use vstd::prelude::*;

use crate::application::metrics::{
    average_ms, interaction_outcome, InteractionMetrics, InteractionMetricsSnapshot,
    InteractionSample,
};
use crate::application::service::{BridgeService, Interaction, Stage};
use crate::error::BridgeError;

verus! {

/// One more, if it counts.
pub open spec fn more(counts: bool) -> int {
    if counts {
        1
    } else {
        0
    }
}

/// Every interaction adds one to the number of interactions, and one to each of the other
/// numbers that it counts for: to the successes if both the request and the reply went well,
/// to the failures of the request, of the reply and of showing that it is worked on if that
/// part did not. Its times are added to their sums, and the greatest time is the greater of
/// the two. What is told is what is kept, as long as no total leaves its range.
pub proof fn law_every_interaction_is_counted(
    metrics: &mut InteractionMetrics,
    sample: InteractionSample,
    out: InteractionMetricsSnapshot,
)
    requires
        call_ensures(InteractionMetrics::record, (metrics, sample), out),
        old(metrics).interactions_total < u64::MAX,
        old(metrics).successful_interactions_total < u64::MAX,
        old(metrics).process_errors_total < u64::MAX,
        old(metrics).reply_errors_total < u64::MAX,
        old(metrics).typing_reaction_errors_total < u64::MAX,
        old(metrics).typing_reaction_ms_total + sample.typing_reaction_ms <= u64::MAX,
        old(metrics).processing_ms_total + sample.processing_ms <= u64::MAX,
        old(metrics).reply_ms_total + sample.reply_ms <= u64::MAX,
        old(metrics).total_ms_total + sample.total_ms <= u64::MAX,
    ensures
        out.interactions_total == old(metrics).interactions_total + 1,
        out.successful_interactions_total == old(metrics).successful_interactions_total + more(
            sample.process_ok && sample.reply_ok,
        ),
        out.process_errors_total == old(metrics).process_errors_total + more(!sample.process_ok),
        out.reply_errors_total == old(metrics).reply_errors_total + more(!sample.reply_ok),
        out.typing_reaction_errors_total == old(metrics).typing_reaction_errors_total + more(
            !sample.typing_reaction_ok,
        ),
        out.typing_reaction_ms_total == old(metrics).typing_reaction_ms_total
            + sample.typing_reaction_ms,
        out.processing_ms_total == old(metrics).processing_ms_total + sample.processing_ms,
        out.reply_ms_total == old(metrics).reply_ms_total + sample.reply_ms,
        out.total_ms_total == old(metrics).total_ms_total + sample.total_ms,
        out.max_total_ms >= old(metrics).max_total_ms,
        out.max_total_ms >= sample.total_ms,
        out.max_total_ms == old(metrics).max_total_ms || out.max_total_ms == sample.total_ms,
        final(metrics).interactions_total == out.interactions_total,
        final(metrics).successful_interactions_total == out.successful_interactions_total,
        final(metrics).process_errors_total == out.process_errors_total,
        final(metrics).reply_errors_total == out.reply_errors_total,
        final(metrics).typing_reaction_errors_total == out.typing_reaction_errors_total,
        final(metrics).typing_reaction_ms_total == out.typing_reaction_ms_total,
        final(metrics).processing_ms_total == out.processing_ms_total,
        final(metrics).reply_ms_total == out.reply_ms_total,
        final(metrics).total_ms_total == out.total_ms_total,
        final(metrics).max_total_ms == out.max_total_ms,
{
}

/// A mean times the number of times is the sum but for less than that number.
pub proof fn law_a_mean_is_not_above_the_sum(total_ms: u64, count: u64, out: u64)
    requires
        call_ensures(average_ms, (total_ms, count), out),
        count > 0,
    ensures
        out * count <= total_ms < out * count + count,
{
    let (total, n) = (total_ms as int, count as int);
    assert((total / n) * n <= total < (total / n) * n + n) by (nonlinear_arith)
        requires
            n > 0,
            total >= 0,
    ;
}

/// An interaction that is finished is counted as it went: as a success of the request if it
/// was carried out, and as one of the reply if that could be sent; else the reason is what
/// comes out.
pub proof fn law_a_finished_interaction_is_counted_as_it_went(
    service: &mut BridgeService,
    it: Interaction,
    process_ok: bool,
    failure: Option<BridgeError>,
    typing_reaction_ms: u64,
    processing_ms: u64,
    reply_ms: u64,
    total_ms: u64,
    out: (InteractionMetricsSnapshot, Result<(), BridgeError>),
)
    requires
        it.stage == (Stage::Finished { process_ok, failure }),
        call_ensures(
            BridgeService::finish,
            (service, it, typing_reaction_ms, processing_ms, reply_ms, total_ms),
            out,
        ),
        old(service).metrics.interactions_total < u64::MAX,
        old(service).metrics.successful_interactions_total < u64::MAX,
        old(service).metrics.process_errors_total < u64::MAX,
        old(service).metrics.reply_errors_total < u64::MAX,
        old(service).metrics.typing_reaction_errors_total < u64::MAX,
        old(service).metrics.total_ms_total + total_ms <= u64::MAX,
    ensures
        failure matches Some(error) ==> out.1 == Err::<(), BridgeError>(error),
        failure is None ==> out.1 is Ok,
        final(service).defaults == old(service).defaults,
        out.0.interactions_total == old(service).metrics.interactions_total + 1,
        out.0.successful_interactions_total == old(service).metrics.successful_interactions_total
            + more(process_ok && failure is None),
        out.0.process_errors_total == old(service).metrics.process_errors_total + more(
            !process_ok,
        ),
        out.0.reply_errors_total == old(service).metrics.reply_errors_total + more(
            failure is Some,
        ),
        out.0.typing_reaction_errors_total == old(service).metrics.typing_reaction_errors_total
            + more(!it.typing_reaction_ok),
        out.0.total_ms_total == old(service).metrics.total_ms_total + total_ms,
        final(service).metrics.interactions_total == out.0.interactions_total,
{
}

/// How an interaction went is told by whether the request was carried out and whether the
/// reply was sent, each of the four cases by a word of its own.
pub proof fn law_each_outcome_has_a_word_of_its_own(
    process_ok: bool,
    reply_ok: bool,
    other_process: bool,
    other_reply: bool,
    word: &'static str,
    other: &'static str,
)
    requires
        call_ensures(interaction_outcome, (process_ok, reply_ok), word),
        call_ensures(interaction_outcome, (other_process, other_reply), other),
    ensures
        word@ == other@ <==> process_ok == other_process && reply_ok == other_reply,
        process_ok && reply_ok ==> word@ == "ok"@,
        !process_ok && reply_ok ==> word@ == "handled-error"@,
        process_ok && !reply_ok ==> word@ == "reply-failed"@,
        !process_ok && !reply_ok ==> word@ == "reply-failed-after-error"@,
{
    reveal_strlit("ok");
    reveal_strlit("handled-error");
    reveal_strlit("reply-failed");
    reveal_strlit("reply-failed-after-error");
    assert("ok"@.len() == 2 && "handled-error"@.len() == 13 && "reply-failed"@.len() == 12);
    assert("reply-failed-after-error"@.len() == 24);
}

/// At first nothing is counted.
pub proof fn law_nothing_is_counted_at_first(
    metrics: InteractionMetrics,
    out: InteractionMetricsSnapshot,
)
    requires
        call_ensures(InteractionMetrics::new, (), metrics),
        call_ensures(InteractionMetrics::snapshot, (&metrics,), out),
    ensures
        out.interactions_total == 0,
        out.successful_interactions_total == 0,
        out.process_errors_total == 0,
        out.reply_errors_total == 0,
        out.typing_reaction_errors_total == 0,
        out.typing_reaction_ms_total == 0,
        out.processing_ms_total == 0,
        out.reply_ms_total == 0,
        out.total_ms_total == 0,
        out.max_total_ms == 0,
{
}

} // verus!
