//! Fan-in aggregation of several independent event sources into one stream.
//!
//! The aggregator is the deciding half of the merge: the surrounding binary
//! awaits all subscriptions at once and hands each arrival in as a signal —
//! an item from one source, or the end of one source.  The aggregator says
//! what the merged stream does with it: an item is forwarded at once, tagged
//! with its source's label and untouched by the state of every other source,
//! and the merged stream is over exactly when every source has ended.
//! Construction is fail-fast: if any subscription failed to start, no
//! aggregator is built and no event is ever produced.

use vstd::prelude::*;

use crate::event::Event;
use crate::types::ServiceError;

verus! {

/// One merged source: its label and whether it has ended.
#[derive(Debug, Clone)]
pub struct Source {
    pub label: String,
    pub done: bool,
}

/// One arrival at the aggregator: the source at `source` produced an event,
/// or ended.
#[derive(Debug, Clone)]
pub enum SourceSignal {
    Item { source: usize, event: Event },
    End { source: usize },
}

/// An event of the merged stream, tagged with the label of the source it
/// came from.
#[derive(Debug, Clone)]
pub struct LabeledEvent {
    pub source: String,
    pub event: Event,
}

/// The fan-in aggregator: nothing but the per-source state.  It buffers
/// nothing and owns no order beyond arrival order, which its caller
/// preserves by handing signals in one at a time.
#[derive(Debug, Clone)]
pub struct Aggregator {
    pub sources: Vec<Source>,
}

/// Whether every source has ended.
pub open spec fn spec_all_done(sources: Seq<Source>) -> bool {
    forall|i: int| 0 <= i < sources.len() ==> sources[i].done
}

/// What a signal makes the merged stream emit: an item is forwarded at
/// once under its source's label, an end emits nothing.
pub open spec fn spec_emitted(sources: Seq<Source>, signal: SourceSignal) -> Option<
    LabeledEvent,
> {
    match signal {
        SourceSignal::Item { source, event } => Some(
            LabeledEvent { source: sources[source as int].label, event },
        ),
        SourceSignal::End { .. } => None,
    }
}

/// What a signal leaves of the per-source state: an item changes nothing,
/// an end marks its source done.
pub open spec fn spec_after_step(sources: Seq<Source>, signal: SourceSignal) -> Seq<Source> {
    match signal {
        SourceSignal::Item { .. } => sources,
        SourceSignal::End { source } => sources.update(
            source as int,
            Source { label: sources[source as int].label, done: true },
        ),
    }
}

impl Aggregator {
    /// Whether the merged stream is over: every source has ended.
    pub open spec fn spec_terminated(self) -> bool {
        spec_all_done(self.sources@)
    }

    /// Whether a signal can still arrive: it names a source, and one that
    /// has not ended yet.
    pub open spec fn spec_signal_valid(self, signal: SourceSignal) -> bool {
        match signal {
            SourceSignal::Item { source, .. } => source < self.sources@.len()
                && !self.sources@[source as int].done,
            SourceSignal::End { source } => source < self.sources@.len()
                && !self.sources@[source as int].done,
        }
    }

    /// Builds the aggregator over the outcome of every subscription attempt,
    /// in source order.  Construction is all-or-nothing: it succeeds exactly
    /// when every subscription started, and a failure is surfaced once,
    /// before any event is produced, as the error of a failed attempt.
    pub fn new(setups: &Vec<Result<String, ServiceError>>) -> (r: Result<
        Aggregator,
        ServiceError,
    >)
        ensures
            r is Ok <==> (forall|i: int| 0 <= i < setups@.len() ==> setups@[i] is Ok),
            r matches Ok(agg) ==> agg.sources@.len() == setups@.len(),
            r matches Ok(agg) ==> forall|i: int|
                0 <= i < setups@.len() ==> #[trigger] agg.sources@[i] == (Source {
                    label: setups@[i]->Ok_0,
                    done: false,
                }),
            r matches Err(e) ==> exists|i: int|
                0 <= i < setups@.len() && setups@[i] == Err::<String, ServiceError>(e),
    {
        let mut sources: Vec<Source> = Vec::new();
        let mut i: usize = 0;
        while i < setups.len()
            invariant
                i <= setups@.len(),
                sources@.len() == i,
                forall|j: int| 0 <= j < i ==> (#[trigger] setups@[j]) is Ok,
                forall|j: int|
                    0 <= j < i ==> #[trigger] sources@[j] == (Source {
                        label: setups@[j]->Ok_0,
                        done: false,
                    }),
            decreases setups@.len() - i,
        {
            match &setups[i] {
                Ok(label) => {
                    sources.push(Source { label: label.clone(), done: false });
                },
                Err(e) => {
                    let err = match e {
                        ServiceError::Bus(msg) => ServiceError::Bus(msg.clone()),
                        ServiceError::UnexpectedReply => ServiceError::UnexpectedReply,
                    };
                    proof {
                        assert(setups@[i as int] == Err::<String, ServiceError>(err));
                    }
                    return Err(err);
                },
            }
            i += 1;
        }
        Ok(Aggregator { sources })
    }

    /// Takes one arrival.  An item from a source is emitted at once under
    /// that source's label, whatever the state of every other source, and
    /// changes nothing; the end of a source emits nothing and marks that
    /// source done.  A signal emits something if and only if it is an item.
    pub fn step(&mut self, signal: SourceSignal) -> (out: Option<LabeledEvent>)
        requires
            old(self).spec_signal_valid(signal),
        ensures
            out == spec_emitted(old(self).sources@, signal),
            final(self).sources@ == spec_after_step(old(self).sources@, signal),
            out is Some <==> signal is Item,
    {
        match signal {
            SourceSignal::Item { source, event } => {
                let label = self.sources[source].label.clone();
                Some(LabeledEvent { source: label, event })
            },
            SourceSignal::End { source } => {
                let label = self.sources[source].label.clone();
                self.sources.set(source, Source { label, done: true });
                None
            },
        }
    }

    /// Whether the merged stream is over.
    pub fn is_terminated(&self) -> (r: bool)
        ensures
            r == self.spec_terminated(),
    {
        let mut i: usize = 0;
        while i < self.sources.len()
            invariant
                i <= self.sources@.len(),
                forall|j: int| 0 <= j < i ==> self.sources@[j].done,
            decreases self.sources@.len() - i,
        {
            if !self.sources[i].done {
                return false;
            }
            i += 1;
        }
        true
    }
}

/// Whether a signal names one of `n` sources.
pub open spec fn spec_signal_in_range(signal: SourceSignal, n: nat) -> bool {
    match signal {
        SourceSignal::Item { source, .. } => (source as nat) < n,
        SourceSignal::End { source } => (source as nat) < n,
    }
}

/// The per-source state after a whole run of signals, first to last.
pub open spec fn spec_run(sources: Seq<Source>, signals: Seq<SourceSignal>) -> Seq<Source>
    decreases signals.len(),
{
    if signals.len() == 0 {
        sources
    } else {
        spec_run(spec_after_step(sources, signals[0]), signals.drop_first())
    }
}

/// Whether some signal of a run ends source `i`.
pub open spec fn spec_run_ends(signals: Seq<SourceSignal>, i: int) -> bool {
    exists|k: int|
        0 <= k < signals.len() && ((#[trigger] signals[k]) matches SourceSignal::End { source }
            && source as int == i)
}

/// The aggregated stream terminates exactly when all sources terminate:
/// after any run of signals, every source at once, the merge is over if and
/// only if each source had already ended or ends somewhere in the run.
pub proof fn lemma_run_terminates_iff_every_source_ends(
    sources: Seq<Source>,
    signals: Seq<SourceSignal>,
)
    requires
        forall|k: int|
            0 <= k < signals.len() ==> spec_signal_in_range(#[trigger] signals[k], sources.len()),
    ensures
        spec_all_done(spec_run(sources, signals)) <==> (forall|i: int|
            0 <= i < sources.len() ==> (sources[i].done || spec_run_ends(signals, i))),
    decreases signals.len(),
{
    if signals.len() == 0 {
        assert(spec_run(sources, signals) == sources);
        if forall|i: int| 0 <= i < sources.len() ==> (sources[i].done || spec_run_ends(
            signals,
            i,
        )) {
            assert forall|i: int| 0 <= i < sources.len() implies sources[i].done by {
                assert(sources[i].done || spec_run_ends(signals, i));
                assert(!spec_run_ends(signals, i));
            }
            assert(spec_all_done(sources));
        }
    } else {
        let s0 = signals[0];
        let rest = signals.drop_first();
        let mid = spec_after_step(sources, s0);
        assert(spec_signal_in_range(s0, sources.len()));
        assert(mid.len() == sources.len());
        assert(forall|k: int| 0 <= k < rest.len() ==> rest[k] == signals[k + 1]);
        lemma_run_terminates_iff_every_source_ends(mid, rest);
        assert(spec_run(sources, signals) == spec_run(mid, rest));
        if spec_all_done(spec_run(mid, rest)) {
            assert forall|i: int| 0 <= i < sources.len() implies (sources[i].done
                || spec_run_ends(signals, i)) by {
                assert(mid[i].done || spec_run_ends(rest, i));
                if spec_run_ends(rest, i) {
                    let k = choose|k: int|
                        0 <= k < rest.len() && ((#[trigger] rest[k]) matches SourceSignal::End {
                            source,
                        } && source as int == i);
                    assert(signals[k + 1] == rest[k]);
                    assert(spec_run_ends(signals, i));
                } else {
                    match s0 {
                        SourceSignal::End { source } => {
                            if source as int == i {
                                assert((signals[0]) matches SourceSignal::End { source: s }
                                    && s as int == i);
                                assert(spec_run_ends(signals, i));
                            } else {
                                assert(mid[i] == sources[i]);
                            }
                        },
                        SourceSignal::Item { .. } => {
                            assert(mid[i] == sources[i]);
                        },
                    }
                }
            }
        }
        if forall|i: int| 0 <= i < sources.len() ==> (sources[i].done || spec_run_ends(
            signals,
            i,
        )) {
            assert forall|i: int| 0 <= i < mid.len() implies (mid[i].done || spec_run_ends(
                rest,
                i,
            )) by {
                assert(sources[i].done || spec_run_ends(signals, i));
                if sources[i].done {
                    match s0 {
                        SourceSignal::End { source } => {
                            if source as int == i {
                                assert(mid[i].done);
                            } else {
                                assert(mid[i] == sources[i]);
                            }
                        },
                        SourceSignal::Item { .. } => {
                            assert(mid[i] == sources[i]);
                        },
                    }
                } else {
                    let k = choose|k: int|
                        0 <= k < signals.len() && ((#[trigger] signals[k]) matches
                            SourceSignal::End { source } && source as int == i);
                    if k == 0 {
                        assert(mid[i].done);
                    } else {
                        assert(rest[k - 1] == signals[k]);
                        assert(spec_run_ends(rest, i));
                    }
                }
            }
            assert(spec_all_done(spec_run(mid, rest)));
        }
    }
}

/// Liveness across sources: what the merge emits for an item from one source
/// is a function of that source's label and the item alone.  Two aggregators
/// that agree on the emitting source's label emit the same event for it, no
/// matter how the other sources differ — in particular, a source that never
/// produces cannot delay or change what another source's event becomes.
pub proof fn lemma_no_cross_source_blocking(a: Aggregator, b: Aggregator, signal: SourceSignal)
    requires
        a.spec_signal_valid(signal),
        b.spec_signal_valid(signal),
        signal is Item,
        signal matches SourceSignal::Item { source, .. } ==> a.sources@[source as int].label
            == b.sources@[source as int].label,
    ensures
        spec_emitted(a.sources@, signal) == spec_emitted(b.sources@, signal),
        spec_emitted(a.sources@, signal) is Some,
{
}

/// Termination happens only by exhaustion: forwarding an item never ends the
/// merged stream, and after the end of one source the stream is over exactly
/// when every other source had already ended.
pub proof fn lemma_terminates_iff_all_end(a: Aggregator, signal: SourceSignal)
    requires
        a.spec_signal_valid(signal),
    ensures
        signal is Item ==> !spec_all_done(spec_after_step(a.sources@, signal)),
        signal matches SourceSignal::End { source } ==> (spec_all_done(
            spec_after_step(a.sources@, signal),
        ) <==> (forall|j: int|
            0 <= j < a.sources@.len() && j != source ==> a.sources@[j].done)),
{
    match signal {
        SourceSignal::Item { source, .. } => {
            assert(!spec_after_step(a.sources@, signal)[source as int].done);
        },
        SourceSignal::End { source } => {
            let after = spec_after_step(a.sources@, signal);
            assert(after[source as int].done);
            assert(forall|j: int|
                0 <= j < a.sources@.len() && j != source ==> after[j] == a.sources@[j]);
            if spec_all_done(after) {
                assert forall|j: int| 0 <= j < a.sources@.len() && j != source implies a.sources@[j].done by {
                    assert(after[j].done);
                }
            }
            if forall|j: int| 0 <= j < a.sources@.len() && j != source ==> a.sources@[j].done {
                assert forall|k: int| 0 <= k < after.len() implies after[k].done by {
                    if k != source {
                        assert(a.sources@[k].done);
                    }
                }
            }
        },
    }
}

} // verus!
