use crate::context::{TrustingPeriodContext, ValidationContext};
use crate::error::{AggregationFailure, Error};
use crate::message::{EmittedState, UpdateClientMessage, UpdateStateModel};
use crate::types::{Height, StateID, Time};
use vstd::prelude::*;

verus! {

/// The height an update starts from; an absent one reads as zero.
pub open spec fn height_or_zero(h: Option<Height>) -> Height {
    match h {
        Some(h) => h,
        None => Height::zero(),
    }
}

/// The bytes of the state id an update starts from; an absent one reads as
/// all zeros.
pub open spec fn state_id_or_zero(id: Option<StateID>) -> Seq<u8> {
    match id {
        Some(id) => id.0@,
        None => Seq::new(32, |i: int| 0u8),
    }
}

/// Whether `next` starts exactly where `prev` ends.
pub open spec fn links(prev: UpdateStateModel, next: UpdateStateModel) -> bool {
    &&& prev.post_state_id.0@ == state_id_or_zero(next.prev_state_id)
    &&& prev.post_height == height_or_zero(next.prev_height)
}

/// The composition of two updates, or why they do not compose.
pub open spec fn spec_aggregate(a: UpdateStateModel, b: UpdateStateModel) -> Result<
    UpdateStateModel,
    Error,
> {
    if a.post_state_id.0@ != state_id_or_zero(b.prev_state_id) {
        Err(Error::MessageAggregationFailed(AggregationFailure::StateIdMismatch))
    } else if a.post_height != height_or_zero(b.prev_height) {
        Err(Error::MessageAggregationFailed(AggregationFailure::HeightMismatch))
    } else {
        match a.context.spec_aggregate(b.context) {
            Ok(context) => Ok(
                UpdateStateModel {
                    prev_height: a.prev_height,
                    prev_state_id: a.prev_state_id,
                    post_height: b.post_height,
                    post_state_id: b.post_state_id,
                    timestamp: b.timestamp,
                    context,
                    emitted_states: a.emitted_states + b.emitted_states,
                },
            ),
            Err(e) => Err(e),
        }
    }
}

/// The composition of a sequence of updates, from the first to the last.
pub open spec fn spec_aggregate_all(ms: Seq<UpdateStateModel>) -> Result<UpdateStateModel, Error>
    decreases ms.len(),
{
    if ms.len() == 0 {
        Err(Error::MessageAggregationFailed(AggregationFailure::Empty))
    } else if ms.len() == 1 {
        Ok(ms[0])
    } else {
        match spec_aggregate_all(ms.drop_last()) {
            Ok(acc) => spec_aggregate(acc, ms.last()),
            Err(e) => Err(e),
        }
    }
}

pub open spec fn models(ms: Seq<UpdateClientMessage>) -> Seq<UpdateStateModel> {
    ms.map_values(|m: UpdateClientMessage| m@)
}

pub open spec fn model_result(r: Result<UpdateClientMessage, Error>) -> Result<
    UpdateStateModel,
    Error,
> {
    match r {
        Ok(m) => Ok(m@),
        Err(e) => Err(e),
    }
}

impl UpdateClientMessage {
    /// Composes this update with the one that follows it.
    pub fn aggregate(self, other: Self) -> (r: Result<Self, Error>)
        ensures
            model_result(r) == spec_aggregate(self@, other@),
            r is Ok <==> links(self@, other@) && self.context.compatible(other.context),
    {
        let UpdateClientMessage {
            prev_height,
            prev_state_id,
            post_height,
            post_state_id,
            timestamp: _,
            context,
            emitted_states,
        } = self;
        let UpdateClientMessage {
            prev_height: next_prev_height,
            prev_state_id: next_prev_state_id,
            post_height: next_post_height,
            post_state_id: next_post_state_id,
            timestamp: next_timestamp,
            context: next_context,
            emitted_states: next_emitted_states,
        } = other;
        let start_id = match next_prev_state_id {
            Some(id) => id,
            None => StateID::zero(),
        };
        if !(post_state_id == start_id) {
            return Err(Error::MessageAggregationFailed(AggregationFailure::StateIdMismatch));
        }
        let start_height = match next_prev_height {
            Some(h) => h,
            None => Height::new(0, 0),
        };
        if post_height != start_height {
            return Err(Error::MessageAggregationFailed(AggregationFailure::HeightMismatch));
        }
        let context = match context.aggregate(next_context) {
            Ok(c) => c,
            Err(e) => return Err(e),
        };
        let mut emitted_states = emitted_states;
        let mut rest = next_emitted_states;
        emitted_states.append(&mut rest);
        Ok(UpdateClientMessage {
            prev_height,
            prev_state_id,
            post_height: next_post_height,
            post_state_id: next_post_state_id,
            timestamp: next_timestamp,
            context,
            emitted_states,
        })
    }
}

/// Once a prefix of the sequence fails to compose, every longer prefix fails
/// with the same error.
proof fn lemma_failure_persists(ms: Seq<UpdateStateModel>, k: int, e: Error)
    requires
        1 <= k <= ms.len(),
        spec_aggregate_all(ms.subrange(0, k)) == Err::<UpdateStateModel, Error>(e),
    ensures
        spec_aggregate_all(ms) == Err::<UpdateStateModel, Error>(e),
    decreases ms.len() - k,
{
    if k < ms.len() {
        let p = ms.subrange(0, k + 1);
        assert(p.drop_last() =~= ms.subrange(0, k));
        lemma_failure_persists(ms, k + 1, e);
    } else {
        assert(ms.subrange(0, k) =~= ms);
    }
}

/// Composes a non-empty sequence of updates, in order, into one.
pub fn aggregate_messages(messages: Vec<UpdateClientMessage>) -> (r: Result<
    UpdateClientMessage,
    Error,
>)
    ensures
        model_result(r) == spec_aggregate_all(models(messages@)),
        messages@.len() == 0 ==> r == Err::<UpdateClientMessage, Error>(
            Error::MessageAggregationFailed(AggregationFailure::Empty),
        ),
        messages@.len() == 1 ==> (r matches Ok(m) && m@ == messages@[0]@),
{
    let ghost ms = models(messages@);
    let n = messages.len();
    if n == 0 {
        return Err(Error::MessageAggregationFailed(AggregationFailure::Empty));
    }
    // Reverse the messages so that popping yields them in the given order.

    let mut src = messages;
    let mut rev: Vec<UpdateClientMessage> = Vec::new();
    while src.len() > 0
        invariant
            src@.len() + rev@.len() == n,
            n == messages@.len(),
            src@ == messages@.subrange(0, src@.len() as int),
            forall|i: int| 0 <= i < rev@.len() ==> #[trigger] rev@[i] == messages@[n - 1 - i],
        decreases src@.len(),
    {
        match src.pop() {
            Some(m) => rev.push(m),
            None => {},
        }
    }
    let mut acc = match rev.pop() {
        Some(m) => m,
        None => {
            return Err(Error::MessageAggregationFailed(AggregationFailure::Empty));
        },
    };
    assert(ms.subrange(0, 1) =~= seq![ms[0]]);
    while rev.len() > 0
        invariant
            0 <= rev@.len() < n,
            n == messages@.len(),
            ms == models(messages@),
            forall|i: int| 0 <= i < rev@.len() ==> #[trigger] rev@[i] == messages@[n - 1 - i],
            spec_aggregate_all(ms.subrange(0, n - rev@.len())) == Ok::<UpdateStateModel, Error>(
                acc@,
            ),
        decreases rev@.len(),
    {
        let ghost k = n - rev@.len();
        let m = match rev.pop() {
            Some(m) => m,
            None => {
                return Err(Error::MessageAggregationFailed(AggregationFailure::Empty));
            },
        };
        assert(ms.subrange(0, k + 1).drop_last() =~= ms.subrange(0, k));
        assert(m@ == ms[k]);
        match acc.aggregate(m) {
            Ok(a) => {
                acc = a;
            },
            Err(e) => {
                proof {
                    lemma_failure_persists(ms, k + 1, e);
                }
                return Err(e);
            },
        }
    }
    assert(ms.subrange(0, n as int) =~= ms);
    Ok(acc)
}

/// Whether the sequence is a non-empty chain: each update starts where the
/// previous one ends, and neighbouring contexts are compatible.
pub open spec fn is_valid_chain(ms: Seq<UpdateStateModel>) -> bool {
    &&& ms.len() > 0
    &&& forall|i: int|
        0 <= i < ms.len() - 1 ==> links(#[trigger] ms[i], ms[i + 1]) && ms[i].context.compatible(
            ms[i + 1].context,
        )
}

/// The emitted states of all the updates of a sequence, in order.
pub open spec fn all_emitted_states(ms: Seq<UpdateStateModel>) -> Seq<EmittedState>
    decreases ms.len(),
{
    if ms.len() == 0 {
        Seq::empty()
    } else {
        all_emitted_states(ms.drop_last()) + ms.last().emitted_states
    }
}

/// The untrusted header timestamp of a trusting-period context.
pub open spec fn untrusted_of(c: ValidationContext) -> Time {
    match c {
        ValidationContext::TrustingPeriod(t) => t.untrusted_header_timestamp,
        ValidationContext::Empty => arbitrary(),
    }
}

/// The trusted state timestamp of a trusting-period context.
pub open spec fn trusted_of(c: ValidationContext) -> Time {
    match c {
        ValidationContext::TrustingPeriod(t) => t.trusted_state_timestamp,
        ValidationContext::Empty => arbitrary(),
    }
}

/// The latest untrusted header timestamp over a sequence of updates.
pub open spec fn latest_untrusted(ms: Seq<UpdateStateModel>) -> Time
    decreases ms.len(),
{
    if ms.len() <= 1 {
        untrusted_of(ms[0].context)
    } else {
        crate::context::later(latest_untrusted(ms.drop_last()), untrusted_of(ms.last().context))
    }
}

/// The earliest trusted state timestamp over a sequence of updates.
pub open spec fn earliest_trusted(ms: Seq<UpdateStateModel>) -> Time
    decreases ms.len(),
{
    if ms.len() <= 1 {
        trusted_of(ms[0].context)
    } else {
        crate::context::earlier(earliest_trusted(ms.drop_last()), trusted_of(ms.last().context))
    }
}

/// A valid chain composes into one update that starts where the first one
/// starts, ends where the last one ends, carries the last timestamp, and
/// emits all the emitted states in order.
pub proof fn lemma_chain_aggregation(ms: Seq<UpdateStateModel>)
    requires
        is_valid_chain(ms),
    ensures
        spec_aggregate_all(ms) matches Ok(r) && {
            &&& r.prev_height == ms[0].prev_height
            &&& r.prev_state_id == ms[0].prev_state_id
            &&& r.post_height == ms.last().post_height
            &&& r.post_state_id == ms.last().post_state_id
            &&& r.timestamp == ms.last().timestamp
            &&& r.emitted_states == all_emitted_states(ms)
            &&& r.context.compatible(ms.last().context)
        },
    decreases ms.len(),
{
    if ms.len() == 1 {
        assert(ms.drop_last() =~= Seq::<UpdateStateModel>::empty());
        assert(all_emitted_states(ms.drop_last()) =~= Seq::<EmittedState>::empty());
        assert(all_emitted_states(ms) =~= ms[0].emitted_states);
    } else {
        let init = ms.drop_last();
        assert forall|i: int| 0 <= i < init.len() - 1 implies links(
            #[trigger] init[i],
            init[i + 1],
        ) && init[i].context.compatible(init[i + 1].context) by {
            assert(init[i] == ms[i] && init[i + 1] == ms[i + 1]);
        }
        lemma_chain_aggregation(init);
        let k = ms.len() - 2;
        assert(links(ms[k], ms[k + 1]));
        assert(init.last() == ms[k]);
    }
}

/// An update that does not start where its predecessor ends makes the whole
/// sequence fail to compose.
pub proof fn lemma_broken_link_rejected(ms: Seq<UpdateStateModel>, i: int)
    requires
        0 <= i < ms.len() - 1,
        !links(ms[i], ms[i + 1]),
    ensures
        spec_aggregate_all(ms) is Err,
    decreases ms.len(),
{
    let init = ms.drop_last();
    if i + 2 < ms.len() {
        assert(init[i] == ms[i] && init[i + 1] == ms[i + 1]);
        lemma_broken_link_rejected(init, i);
    } else {
        assert(init.last() == ms[i]);
        lemma_last_post_state(init);
    }
}

/// A sequence that composes ends where its last update ends.
proof fn lemma_last_post_state(ms: Seq<UpdateStateModel>)
    requires
        ms.len() > 0,
    ensures
        spec_aggregate_all(ms) matches Ok(r) ==> r.post_height == ms.last().post_height
            && r.post_state_id == ms.last().post_state_id,
    decreases ms.len(),
{
}

/// Along a valid chain of trusting-period updates, the composed context keeps
/// the common parameters, the latest untrusted header timestamp and the
/// earliest trusted state timestamp.
pub proof fn lemma_trusting_period_composition(ms: Seq<UpdateStateModel>)
    requires
        is_valid_chain(ms),
        ms[0].context is TrustingPeriod,
    ensures
        spec_aggregate_all(ms) matches Ok(r) && r.context == ValidationContext::TrustingPeriod(
            TrustingPeriodContext {
                trusting_period: ms[0].context->TrustingPeriod_0.trusting_period,
                clock_drift: ms[0].context->TrustingPeriod_0.clock_drift,
                untrusted_header_timestamp: latest_untrusted(ms),
                trusted_state_timestamp: earliest_trusted(ms),
            },
        ),
    decreases ms.len(),
{
    lemma_chain_aggregation(ms);
    if ms.len() > 1 {
        let init = ms.drop_last();
        assert forall|i: int| 0 <= i < init.len() - 1 implies links(
            #[trigger] init[i],
            init[i + 1],
        ) && init[i].context.compatible(init[i + 1].context) by {
            assert(init[i] == ms[i] && init[i + 1] == ms[i + 1]);
        }
        assert(init[0] == ms[0]);
        lemma_trusting_period_composition(init);
        lemma_chain_aggregation(init);
        let k = ms.len() - 2;
        assert(init.last() == ms[k]);
        assert(ms[k].context.compatible(ms[k + 1].context));
    }
}

/// Composition is associative where it succeeds: composing `a` with `b`
/// and then with `c` gives what composing `a` with the composition of `b`
/// and `c` gives.
pub proof fn lemma_aggregate_associative(
    a: UpdateStateModel,
    b: UpdateStateModel,
    c: UpdateStateModel,
)
    requires
        spec_aggregate(a, b) matches Ok(ab) && spec_aggregate(ab, c) is Ok,
    ensures
        spec_aggregate(b, c) matches Ok(bc) && spec_aggregate(a, bc) == spec_aggregate(
            spec_aggregate(a, b)->Ok_0,
            c,
        ),
{
    assert(spec_aggregate(b, c) is Ok);
    assert(a.emitted_states + b.emitted_states + c.emitted_states =~= a.emitted_states + (
    b.emitted_states + c.emitted_states));
}

/// The latest untrusted header timestamp of a sequence is the maximum: it
/// is at least that of every update and is that of one of them.
pub proof fn lemma_latest_untrusted_is_max(ms: Seq<UpdateStateModel>)
    requires
        ms.len() > 0,
    ensures
        forall|i: int|
            0 <= i < ms.len() ==> latest_untrusted(ms)@ >= (#[trigger] untrusted_of(ms[i].context))@,
        exists|i: int| 0 <= i < ms.len() && latest_untrusted(ms) == untrusted_of(ms[i].context),
    decreases ms.len(),
{
    if ms.len() > 1 {
        let init = ms.drop_last();
        lemma_latest_untrusted_is_max(init);
        assert forall|i: int| 0 <= i < ms.len() implies latest_untrusted(ms)@ >= (#[trigger] untrusted_of(
            ms[i].context,
        ))@ by {
            if i < ms.len() - 1 {
                assert(init[i] == ms[i]);
            }
        }
        let j = choose|j: int| 0 <= j < init.len() && latest_untrusted(init) == untrusted_of(init[j].context);
        assert(init[j] == ms[j]);
        if latest_untrusted(ms) != latest_untrusted(init) {
            assert(latest_untrusted(ms) == untrusted_of(ms[ms.len() - 1].context));
        }
    }
}

/// The earliest trusted state timestamp of a sequence is the minimum: it is
/// at most that of every update and is that of one of them.
pub proof fn lemma_earliest_trusted_is_min(ms: Seq<UpdateStateModel>)
    requires
        ms.len() > 0,
    ensures
        forall|i: int|
            0 <= i < ms.len() ==> earliest_trusted(ms)@ <= (#[trigger] trusted_of(ms[i].context))@,
        exists|i: int| 0 <= i < ms.len() && earliest_trusted(ms) == trusted_of(ms[i].context),
    decreases ms.len(),
{
    if ms.len() > 1 {
        let init = ms.drop_last();
        lemma_earliest_trusted_is_min(init);
        assert forall|i: int| 0 <= i < ms.len() implies earliest_trusted(ms)@ <= (#[trigger] trusted_of(
            ms[i].context,
        ))@ by {
            if i < ms.len() - 1 {
                assert(init[i] == ms[i]);
            }
        }
        let j = choose|j: int| 0 <= j < init.len() && earliest_trusted(init) == trusted_of(init[j].context);
        assert(init[j] == ms[j]);
        if earliest_trusted(ms) != earliest_trusted(init) {
            assert(earliest_trusted(ms) == trusted_of(ms[ms.len() - 1].context));
        }
    }
}

} // verus!
