//! Whole runs of the receiver loop, and what holds of them.
//!
//! A run is a sequence of events that the codec has seen, taken one after the
//! other.

use crate::receiver::{Inbound, ReceiverAction};
use vstd::prelude::*;

verus! {

/// Whether the sequence of results has ended after a run.
pub open spec fn ended_after<O>(ended: bool, signals: Seq<Inbound<O>>) -> bool
    decreases signals.len(),
{
    if signals.len() == 0 {
        ended
    } else {
        ended_after(signals[0].react(ended).ended, signals.drop_first())
    }
}

/// The results that the loop hands to the consumer during a run, in order.
pub open spec fn yields<O>(ended: bool, signals: Seq<Inbound<O>>) -> Seq<O>
    decreases signals.len(),
{
    if signals.len() == 0 {
        Seq::empty()
    } else {
        let verdict = signals[0].react(ended);
        let later = yields(verdict.ended, signals.drop_first());
        match verdict.step.action {
            ReceiverAction::Yield(output) => seq![output] + later,
            _ => later,
        }
    }
}

/// The results that the data frames among the events hold, in order.
pub open spec fn delivered<O>(signals: Seq<Inbound<O>>) -> Seq<O>
    decreases signals.len(),
{
    if signals.len() == 0 {
        Seq::empty()
    } else {
        match signals[0].result() {
            Some(output) => seq![output] + delivered(signals.drop_first()),
            None => delivered(signals.drop_first()),
        }
    }
}

/// Whether none of the events ends the sequence of results.
pub open spec fn unbroken<O>(signals: Seq<Inbound<O>>) -> bool {
    forall|i: int| 0 <= i < signals.len() ==> !(#[trigger] signals[i]).ends()
}

/// A sequence of results that has ended stays ended and grows no more,
/// whatever is still reported to the loop.
pub proof fn lemma_ended_stays_ended<O>(signals: Seq<Inbound<O>>)
    ensures
        yields(true, signals) == Seq::<O>::empty(),
        ended_after(true, signals),
    decreases signals.len(),
{
    if signals.len() > 0 {
        lemma_ended_stays_ended(signals.drop_first());
    }
}

/// A run in two parts is the first part, then the second part from where the
/// first one ended.
pub proof fn lemma_run_in_parts<O>(ended: bool, first: Seq<Inbound<O>>, second: Seq<Inbound<O>>)
    ensures
        ended_after(ended, first + second) == ended_after(ended_after(ended, first), second),
        yields(ended, first + second) == yields(ended, first) + yields(
            ended_after(ended, first),
            second,
        ),
    decreases first.len(),
{
    if first.len() > 0 {
        assert((first + second).drop_first() =~= first.drop_first() + second);
        lemma_run_in_parts(first[0].react(ended).ended, first.drop_first(), second);
    }
}

/// While nothing ends the sequence, the consumer gets every result that the
/// data frames hold, in the order of the frames, and nothing else.
pub proof fn lemma_unbroken_run_delivers<O>(signals: Seq<Inbound<O>>)
    requires
        unbroken(signals),
    ensures
        yields(false, signals) == delivered(signals),
        !ended_after(false, signals),
    decreases signals.len(),
{
    if signals.len() > 0 {
        let rest = signals.drop_first();
        assert forall|i: int| 0 <= i < rest.len() implies !(#[trigger] rest[i]).ends() by {}
        lemma_unbroken_run_delivers(rest);
    }
}

/// The sequence of results ends at the first event that ends it: an orderly
/// close, a failed read, the end of the connection, or the idle timeout. The
/// consumer gets the results of the data frames before that event, and none
/// of what follows it.
pub proof fn lemma_sequence_ends_at_first_end<O>(
    before: Seq<Inbound<O>>,
    end: Inbound<O>,
    after: Seq<Inbound<O>>,
)
    requires
        unbroken(before),
        end.ends(),
    ensures
        yields(false, before + seq![end] + after) == delivered(before),
        ended_after(false, before + seq![end] + after),
{
    let ending = seq![end];
    lemma_unbroken_run_delivers(before);
    lemma_run_in_parts(false, before, ending);
    lemma_run_in_parts(false, before + ending, after);
    assert(yields(true, ending.drop_first()) =~= Seq::<O>::empty());
    assert(ended_after(true, ending.drop_first()));
    lemma_ended_stays_ended(after);
}

/// The consumer never gets more results than events were reported.
pub proof fn lemma_yields_at_most_one_each<O>(ended: bool, signals: Seq<Inbound<O>>)
    ensures
        yields(ended, signals).len() <= signals.len(),
    decreases signals.len(),
{
    if signals.len() > 0 {
        lemma_yields_at_most_one_each(signals[0].react(ended).ended, signals.drop_first());
    }
}

/// When no frame arrives within the idle timeout, the sequence of results
/// ends empty, whatever arrives later.
pub proof fn lemma_idle_timeout_ends_empty<O>(after: Seq<Inbound<O>>)
    ensures
        yields(false, seq![Inbound::<O>::IdleTimeout] + after) == Seq::<O>::empty(),
        ended_after(false, seq![Inbound::<O>::IdleTimeout] + after),
{
    let before = Seq::<Inbound<O>>::empty();
    lemma_sequence_ends_at_first_end(before, Inbound::<O>::IdleTimeout, after);
    assert(before + seq![Inbound::<O>::IdleTimeout] =~= seq![Inbound::<O>::IdleTimeout]);
}

} // verus!
