use vstd::prelude::*;
use crate::error::{DispatchError, ErrorView};
use crate::models::{
    assistant_message, assistant_text_message, concat_output_text, item_view, output_text,
    ContentView, EventView, ResponseEvent, Role,
};

verus! {

/// State of the pull-based adapter that collapses the assistant deltas of
/// a turn into one message. The wrapped source itself is held by the
/// caller, which feeds each item it pulls to `accept`.
#[derive(Debug)]
pub struct AggregationState {
    cumulative: String,
    pending_completed: Option<ResponseEvent>,
}

/// Model of the adapter's state.
pub struct AggView {
    pub cumulative: Seq<char>,
    pub pending: Option<EventView>,
}

/// Model of an optional event.
pub open spec fn opt_event_view(e: Option<ResponseEvent>) -> Option<EventView> {
    match e {
        Some(x) => Some(x@),
        None => None,
    }
}

/// Model of what a source hands out on one pull: `None` once exhausted.
pub open spec fn pulled_view(p: Option<Result<ResponseEvent, DispatchError>>) -> Option<
    Result<EventView, ErrorView>,
> {
    match p {
        Some(x) => Some(item_view(x)),
        None => None,
    }
}

impl View for AggregationState {
    type V = AggView;

    closed spec fn view(&self) -> AggView {
        AggView { cumulative: self.cumulative@, pending: opt_event_view(self.pending_completed) }
    }
}

/// What the adapter does with one pulled item.
#[derive(Debug)]
pub enum AggStep {
    /// Keep nothing to hand out yet: pull the source again.
    Pull,
    /// Hand this to the consumer (`None`: the source is exhausted).
    Yield(Option<Result<ResponseEvent, DispatchError>>),
}

/// Model of an `AggStep`.
pub enum AggStepView {
    Pull,
    Yield(Option<Result<EventView, ErrorView>>),
}

impl View for AggStep {
    type V = AggStepView;

    open spec fn view(&self) -> AggStepView {
        match self {
            AggStep::Pull => AggStepView::Pull,
            AggStep::Yield(p) => AggStepView::Yield(pulled_view(*p)),
        }
    }
}

/// The adapter's state before its first pull.
pub open spec fn initial_agg() -> AggView {
    AggView { cumulative: Seq::empty(), pending: None }
}

/// The adapter's rule for one pulled item, with no completion waiting.
pub open spec fn accept_spec(s: AggView, p: Option<Result<EventView, ErrorView>>) -> (
    AggView,
    AggStepView,
) {
    match p {
        None => (s, AggStepView::Yield(None)),
        Some(Err(e)) => (s, AggStepView::Yield(Some(Err(e)))),
        Some(Ok(EventView::OutputItemDone(m))) => if m.role == Role::Assistant {
            (AggView { cumulative: s.cumulative + output_text(m.content), ..s }, AggStepView::Pull)
        } else {
            (s, AggStepView::Yield(Some(Ok(EventView::OutputItemDone(m)))))
        },
        Some(Ok(EventView::Completed(id))) => if s.cumulative.len() > 0 {
            (
                AggView { cumulative: Seq::empty(), pending: Some(EventView::Completed(id)) },
                AggStepView::Yield(
                    Some(Ok(EventView::OutputItemDone(assistant_text_message(s.cumulative)))),
                ),
            )
        } else {
            (s, AggStepView::Yield(Some(Ok(EventView::Completed(id)))))
        },
    }
}

/// What a consumer receives, pull after pull, while the source hands out
/// `items` (and has not yet been exhausted).
pub open spec fn aggregate_run(s: AggView, items: Seq<Result<EventView, ErrorView>>) -> Seq<
    Result<EventView, ErrorView>,
>
    decreases items.len(), if s.pending is Some { 1nat } else { 0nat },
{
    match s.pending {
        Some(ev) => seq![Ok(ev)] + aggregate_run(AggView { pending: None, ..s }, items),
        None => if items.len() == 0 {
            Seq::empty()
        } else {
            let (next, step) = accept_spec(s, Some(items[0]));
            match step {
                AggStepView::Yield(Some(x)) => seq![x] + aggregate_run(next, items.drop_first()),
                _ => aggregate_run(next, items.drop_first()),
            }
        },
    }
}

impl AggregationState {
    /// An adapter with nothing buffered.
    pub fn new() -> (r: Self)
        ensures
            r@ == initial_agg(),
    {
        AggregationState { cumulative: String::new(), pending_completed: None }
    }

    /// The flush-first rule: hands out the completion held back by the
    /// previous pull, if any, and clears it.
    pub fn take_pending(&mut self) -> (r: Option<ResponseEvent>)
        ensures
            opt_event_view(r) == old(self)@.pending,
            final(self)@ == (AggView { pending: None, ..old(self)@ }),
    {
        self.pending_completed.take()
    }

    /// Applies the adapter's rule to one item pulled from the source.
    pub fn accept(&mut self, pulled: Option<Result<ResponseEvent, DispatchError>>) -> (r: AggStep)
        requires
            old(self)@.pending is None,
        ensures
            (final(self)@, r@) == accept_spec(old(self)@, pulled_view(pulled)),
    {
        match pulled {
            None => AggStep::Yield(None),
            Some(Err(e)) => AggStep::Yield(Some(Err(e))),
            Some(Ok(ResponseEvent::OutputItemDone(m))) => {
                if m.role == Role::Assistant {
                    let text = concat_output_text(&m.content);
                    self.cumulative.append(text.as_str());
                    AggStep::Pull
                } else {
                    AggStep::Yield(Some(Ok(ResponseEvent::OutputItemDone(m))))
                }
            },
            Some(Ok(ResponseEvent::Completed { response_id })) => {
                if self.cumulative.unicode_len() > 0 {
                    let text = self.cumulative.clone();
                    self.cumulative = String::new();
                    self.pending_completed = Some(ResponseEvent::Completed { response_id });
                    AggStep::Yield(Some(Ok(ResponseEvent::OutputItemDone(assistant_message(text)))))
                } else {
                    AggStep::Yield(Some(Ok(ResponseEvent::Completed { response_id })))
                }
            },
        }
    }
}

/// Concatenation, in order, of a sequence of texts.
pub open spec fn joined(texts: Seq<Seq<char>>) -> Seq<char>
    decreases texts.len(),
{
    if texts.len() == 0 {
        Seq::empty()
    } else {
        texts[0] + joined(texts.drop_first())
    }
}

/// A turn as the decoder delivers it: one assistant message per delta,
/// then the completion.
pub open spec fn delta_turn(deltas: Seq<Seq<char>>, id: Seq<char>) -> Seq<
    Result<EventView, ErrorView>,
> {
    deltas.map_values(
        |t: Seq<char>| Ok::<EventView, ErrorView>(EventView::OutputItemDone(assistant_text_message(t))),
    ) + seq![Ok(EventView::Completed(id))]
}

/// A turn as the adapter hands it out: the whole text as one message, if
/// there is any text, then the completion.
pub open spec fn aggregated_turn(text: Seq<char>, id: Seq<char>) -> Seq<Result<EventView, ErrorView>> {
    if text.len() > 0 {
        seq![
            Ok(EventView::OutputItemDone(assistant_text_message(text))),
            Ok(EventView::Completed(id)),
        ]
    } else {
        seq![Ok(EventView::Completed(id))]
    }
}

proof fn lemma_turn_from(c: Seq<char>, deltas: Seq<Seq<char>>, id: Seq<char>)
    ensures
        aggregate_run(AggView { cumulative: c, pending: None }, delta_turn(deltas, id))
            == aggregated_turn(c + joined(deltas), id),
    decreases deltas.len(),
{
    let s = AggView { cumulative: c, pending: None };
    let items = delta_turn(deltas, id);
    if deltas.len() == 0 {
        assert(items =~= seq![Ok(EventView::Completed(id))]);
        assert(c + joined(deltas) =~= c);
        let rest = items.drop_first();
        assert(rest =~= Seq::<Result<EventView, ErrorView>>::empty());
        let (next, step) = accept_spec(s, Some(items[0]));
        if c.len() > 0 {
            let cleared = AggView { pending: None, ..next };
            assert(aggregate_run(cleared, rest) =~= Seq::empty());
            assert(aggregate_run(next, rest) =~= seq![Ok(EventView::Completed(id))]);
        } else {
            assert(aggregate_run(next, rest) =~= Seq::empty());
        }
    } else {
        let t = deltas[0];
        let tail = deltas.drop_first();
        assert(items[0] == Ok::<EventView, ErrorView>(
            EventView::OutputItemDone(assistant_text_message(t)),
        ));
        let one = seq![ContentView::OutputText(t)];
        assert(one.drop_first() =~= Seq::<ContentView>::empty());
        assert(output_text(one.drop_first()) == Seq::<char>::empty());
        assert(one[0] == ContentView::OutputText(t));
        assert(t + Seq::<char>::empty() =~= t);
        assert(output_text(one) == t);
        assert(items.drop_first() =~= delta_turn(tail, id));
        lemma_turn_from(c + t, tail, id);
        assert((c + t) + joined(tail) =~= c + joined(deltas));
    }
}

/// Aggregation of one turn: however the assistant text was split into
/// deltas, the consumer receives exactly the whole text, in arrival order,
/// as one message followed by the completion, or the completion alone
/// when the turn carried no text.
pub proof fn lemma_aggregated_turn(deltas: Seq<Seq<char>>, id: Seq<char>)
    ensures
        aggregate_run(initial_agg(), delta_turn(deltas, id)) == aggregated_turn(joined(deltas), id),
{
    lemma_turn_from(Seq::empty(), deltas, id);
    assert(Seq::<char>::empty() + joined(deltas) =~= joined(deltas));
}

} // verus!
