use vstd::prelude::*;
use crate::enrich::ResolvedData;
use crate::enrich::ResolvedView;
use crate::enrich::enrich;
use crate::enrich::enrich_spec;
use crate::feed::FeedOrder;
use crate::feed::FeedOrderView;
use crate::order::Order;
use crate::order::OrderView;
use crate::token::ConfigView;
use crate::token::IndexerConfig;

verus! {

/// What the stream hands over next: a feed order, or a transport fault that
/// is logged and skipped.
#[derive(Debug)]
pub enum StreamEvent {
    Order(FeedOrder),
    TransportError,
}

/// One of the two events the loop races: the next stream item, or the
/// cancellation signal.
#[derive(Debug)]
pub enum LoopEvent {
    Stream(StreamEvent),
    Cancelled,
}

/// What the caller must do after handing the loop one event.
#[derive(Debug)]
pub enum LoopAction {
    /// Enrich this order; on success report back with `record`, on failure
    /// log and drop it.
    Enrich(FeedOrder),
    /// Nothing: the event was a transport fault, logged and skipped.
    Skip,
    /// Hand the whole accumulation to the persistence sink, exactly once.
    Flush,
    /// A later order's timestamp went backwards under strict monotonicity:
    /// abort without flushing.
    Halt,
}

/// The ingestion loop's state: whether it still streams, the last order
/// timestamp seen, and the records accumulated so far. The accumulator is
/// append-only and owned here until the single flush consumes it.
pub struct Ingestion {
    pub streaming: bool,
    pub strict: bool,
    pub last_timestamp: u64,
    pub records: Vec<Order>,
}

impl Ingestion {
    pub fn new(strict: bool) -> (r: Ingestion)
        ensures
            r.streaming,
            r.strict == strict,
            r.last_timestamp == 0,
            r.records@ == Seq::<Order>::empty(),
    {
        Ingestion { streaming: true, strict, last_timestamp: 0, records: Vec::new() }
    }

    /// Feeds the loop one event. A transport fault is skipped; an order is
    /// handed back for enrichment after the monotonicity check; cancellation
    /// ends streaming and demands the one flush. The accumulation never
    /// changes here.
    pub fn on_event(&mut self, ev: LoopEvent) -> (a: LoopAction)
        requires
            old(self).streaming,
        ensures
            final(self).strict == old(self).strict,
            final(self).records == old(self).records,
            match ev {
                LoopEvent::Cancelled => !final(self).streaming && a is Flush
                    && final(self).last_timestamp == old(self).last_timestamp,
                LoopEvent::Stream(StreamEvent::TransportError) => final(self).streaming && a is Skip
                    && final(self).last_timestamp == old(self).last_timestamp,
                LoopEvent::Stream(StreamEvent::Order(o)) => {
                    if old(self).strict && o.created_at < old(self).last_timestamp {
                        !final(self).streaming && a is Halt
                    } else {
                        final(self).streaming && a == LoopAction::Enrich(o)
                            && final(self).last_timestamp == o.created_at
                    }
                },
            },
    {
        match ev {
            LoopEvent::Cancelled => {
                self.streaming = false;
                LoopAction::Flush
            },
            LoopEvent::Stream(StreamEvent::TransportError) => LoopAction::Skip,
            LoopEvent::Stream(StreamEvent::Order(o)) => {
                if self.strict && o.created_at < self.last_timestamp {
                    self.streaming = false;
                    LoopAction::Halt
                } else {
                    self.last_timestamp = o.created_at;
                    LoopAction::Enrich(o)
                }
            },
        }
    }

    /// Appends one successfully enriched record; nothing else changes.
    pub fn record(&mut self, rec: Order)
        requires
            old(self).streaming,
        ensures
            final(self).records@ == old(self).records@.push(rec),
            final(self).streaming == old(self).streaming,
            final(self).strict == old(self).strict,
            final(self).last_timestamp == old(self).last_timestamp,
    {
        self.records.push(rec);
    }

    /// The single flush: consumes the loop and hands over exactly the
    /// accumulated records, in arrival order.
    pub fn flush(self) -> (r: Vec<Order>)
        requires
            !self.streaming,
        ensures
            r == self.records,
    {
        self.records
    }
}

/// One scripted step of a run: an order along with what the collaborators
/// would answer for it, a transport fault, or the cancellation.
pub enum RunEvent {
    Order(FeedOrder, ResolvedData),
    TransportError,
    Cancelled,
}

pub enum RunEventView {
    Order(FeedOrderView, ResolvedView),
    TransportError,
    Cancelled,
}

impl View for RunEvent {
    type V = RunEventView;

    open spec fn view(&self) -> RunEventView {
        match self {
            RunEvent::Order(o, res) => RunEventView::Order(o@, res@),
            RunEvent::TransportError => RunEventView::TransportError,
            RunEvent::Cancelled => RunEventView::Cancelled,
        }
    }
}

/// The views of a run of records.
pub open spec fn records_view(s: Seq<Order>) -> Seq<OrderView> {
    s.map_values(|o: Order| o@)
}

/// The views of a run of scripted events.
pub open spec fn events_view(s: Seq<RunEvent>) -> Seq<RunEventView> {
    s.map_values(|e: RunEvent| e@)
}

/// What a run of the loop flushes, given scripted events: transport faults
/// are skipped, each order is enriched and, on success, appended, and the
/// first cancellation flushes the accumulation. Without a cancellation —
/// or after a strict-mode monotonicity halt — nothing is ever flushed.
pub open spec fn run_spec(
    events: Seq<RunEventView>,
    cfg: ConfigView,
    strict: bool,
    last_ts: u64,
    acc: Seq<OrderView>,
) -> Option<Seq<OrderView>>
    decreases events.len(),
{
    if events.len() == 0 {
        None
    } else {
        match events[0] {
            RunEventView::Cancelled => Some(acc),
            RunEventView::TransportError => run_spec(events.skip(1), cfg, strict, last_ts, acc),
            RunEventView::Order(o, res) => {
                if strict && o.created_at < last_ts {
                    None
                } else {
                    match enrich_spec(o, cfg, res) {
                        Ok(rec) => run_spec(
                            events.skip(1),
                            cfg,
                            strict,
                            o.created_at,
                            acc.push(rec),
                        ),
                        Err(_) => run_spec(events.skip(1), cfg, strict, o.created_at, acc),
                    }
                }
            },
        }
    }
}

/// Runs the whole loop over scripted events, exactly as the live loop runs
/// over the stream, and returns what the flush would persist.
pub fn run_to_flush(events: Vec<RunEvent>, cfg: &IndexerConfig, strict: bool) -> (r: Option<
    Vec<Order>,
>)
    ensures
        match r {
            Some(recs) => run_spec(events_view(events@), cfg@, strict, 0, Seq::empty()) == Some(
                records_view(recs@),
            ),
            None => run_spec(events_view(events@), cfg@, strict, 0, Seq::empty()) is None,
        },
{
    let mut remaining = events;
    let mut ing = Ingestion::new(strict);
    proof {
        assert(records_view(ing.records@) =~= Seq::<OrderView>::empty());
    }
    while remaining.len() > 0
        invariant
            ing.streaming,
            ing.strict == strict,
            run_spec(events_view(events@), cfg@, strict, 0, Seq::empty()) == run_spec(
                events_view(remaining@),
                cfg@,
                strict,
                ing.last_timestamp,
                records_view(ing.records@),
            ),
        decreases remaining@.len(),
    {
        let ghost r0 = remaining@;
        let ev = remaining.remove(0);
        let ghost pre_records = ing.records@;
        proof {
            assert(remaining@ =~= r0.skip(1));
            assert(events_view(r0).skip(1) =~= events_view(r0.skip(1)));
            assert(events_view(r0)[0] == ev@);
        }
        match ev {
            RunEvent::Cancelled => {
                let _ = ing.on_event(LoopEvent::Cancelled);
                let recs = ing.flush();
                return Some(recs);
            },
            RunEvent::TransportError => {
                let _ = ing.on_event(LoopEvent::Stream(StreamEvent::TransportError));
            },
            RunEvent::Order(o, res) => {
                let a = ing.on_event(LoopEvent::Stream(StreamEvent::Order(o)));
                match a {
                    LoopAction::Halt => {
                        return None;
                    },
                    LoopAction::Enrich(o2) => {
                        match enrich(&o2, cfg, &res) {
                            Ok(rec) => {
                                let ghost rec_view = rec@;
                                ing.record(rec);
                                proof {
                                    assert(records_view(ing.records@) =~= records_view(
                                        pre_records,
                                    ).push(rec_view));
                                }
                            },
                            Err(_) => {},
                        }
                    },
                    _ => {
                        proof {
                            assert(false);
                        }
                    },
                }
            },
        }
    }
    None
}

/// The records a prefix of events would add: each order whose enrichment
/// succeeds, in arrival order, and nothing else.
pub open spec fn ok_enrichments(events: Seq<RunEventView>, cfg: ConfigView) -> Seq<OrderView>
    decreases events.len(),
{
    if events.len() == 0 {
        Seq::empty()
    } else {
        let rest = ok_enrichments(events.skip(1), cfg);
        match events[0] {
            RunEventView::Order(o, res) => match enrich_spec(o, cfg, res) {
                Ok(rec) => seq![rec] + rest,
                Err(_) => rest,
            },
            _ => rest,
        }
    }
}

/// Whether a run of events keeps order timestamps non-decreasing, starting
/// from `last_ts` — the feed's contract, under which strict mode never
/// halts.
pub open spec fn timestamps_monotone(events: Seq<RunEventView>, last_ts: u64) -> bool
    decreases events.len(),
{
    if events.len() == 0 {
        true
    } else {
        match events[0] {
            RunEventView::Order(o, _) => o.created_at >= last_ts && timestamps_monotone(
                events.skip(1),
                o.created_at,
            ),
            _ => timestamps_monotone(events.skip(1), last_ts),
        }
    }
}

/// The flush is exact: when the loop is cancelled after any prefix of
/// events — and, under strict monotonicity, no timestamp in that prefix
/// goes backwards, so nothing halts — what it flushes is precisely the
/// records of the orders enriched successfully before the cancellation, in
/// arrival order: no duplicates are introduced, no dropped or in-flight
/// order contributes, and nothing after the cancellation is drained.
pub proof fn lemma_flush_exact(
    events: Seq<RunEventView>,
    cfg: ConfigView,
    strict: bool,
    last_ts: u64,
    acc: Seq<OrderView>,
    ci: int,
)
    requires
        0 <= ci < events.len(),
        events[ci] is Cancelled,
        forall|j: int| 0 <= j < ci ==> !(#[trigger] events[j] is Cancelled),
        strict ==> timestamps_monotone(events.take(ci), last_ts),
    ensures
        run_spec(events, cfg, strict, last_ts, acc) == Some(
            acc + ok_enrichments(events.take(ci), cfg),
        ),
    decreases ci,
{
    if ci == 0 {
        assert(events.take(0) =~= Seq::<RunEventView>::empty());
        assert(acc + ok_enrichments(events.take(0), cfg) =~= acc);
    } else {
        let rest = events.skip(1);
        assert(rest[ci - 1] is Cancelled);
        assert(forall|j: int| 0 <= j < ci - 1 ==> !(#[trigger] rest[j] is Cancelled)) by {
            assert(forall|j: int| 0 <= j < ci - 1 ==> rest[j] == events[j + 1]);
        };
        assert(events.take(ci).skip(1) =~= rest.take(ci - 1));
        assert(events.take(ci)[0] == events[0]);
        match events[0] {
            RunEventView::Cancelled => {
                assert(false);
            },
            RunEventView::TransportError => {
                lemma_flush_exact(rest, cfg, strict, last_ts, acc, ci - 1);
            },
            RunEventView::Order(o, res) => {
                match enrich_spec(o, cfg, res) {
                    Ok(rec) => {
                        lemma_flush_exact(rest, cfg, strict, o.created_at, acc.push(rec), ci - 1);
                        assert(acc.push(rec) + ok_enrichments(rest.take(ci - 1), cfg) =~= acc + (
                        seq![rec] + ok_enrichments(rest.take(ci - 1), cfg)));
                    },
                    Err(_) => {
                        lemma_flush_exact(rest, cfg, strict, o.created_at, acc, ci - 1);
                    },
                }
            },
        }
    }
}

} // verus!
