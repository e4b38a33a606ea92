use vstd::prelude::*;
use crate::actions::Action;
use crate::clock::now_utc_millis;
use crate::registry::{AlertRecord, SourceRegistry};
use crate::threshold::{should_alert, spec_apply_event, spec_over_threshold};
use crate::value::{FeedEvent, cast_numeric, spec_numeric};

verus! {

/// One addressed event applied to every record bound to its subscription;
/// in a well-formed registry, to the single such record. Records of other
/// subscriptions are untouched.
pub open spec fn spec_apply_to_all(
    s: Seq<AlertRecord>,
    id: u64,
    ev: FeedEvent,
    now: i64,
) -> Seq<AlertRecord> {
    Seq::new(
        s.len(),
        |i: int|
            if s[i].sub_id == id {
                spec_apply_event(s[i], ev, now)
            } else {
                s[i]
            },
    )
}

/// A whole batch of addressed events applied in arrival order.
pub open spec fn spec_apply_batch(
    s: Seq<AlertRecord>,
    batch: Seq<(u64, FeedEvent)>,
    now: i64,
) -> Seq<AlertRecord>
    decreases batch.len(),
{
    if batch.len() == 0 {
        s
    } else {
        spec_apply_batch(spec_apply_to_all(s, batch[0].0, batch[0].1, now), batch.skip(1), now)
    }
}

/// The output updates one addressed event queues: an alerting event
/// queues a timestamp update and a temperature update for its
/// subscription, in that order; any other event queues nothing.
pub open spec fn spec_event_acts(id: u64, ev: FeedEvent, now: i64) -> Seq<Action> {
    match ev {
        FeedEvent::Update(v) => match spec_numeric(v) {
            Some(n) => if spec_over_threshold(n) {
                seq![
                    (Action::UpdateTimestamp { sub_id: id, stamp: now }),
                    (Action::UpdateTemperature { sub_id: id, reading: n }),
                ]
            } else {
                Seq::empty()
            },
            None => Seq::empty(),
        },
        FeedEvent::Unsubscribed => Seq::empty(),
    }
}

/// The output updates a whole batch queues, in arrival order.
pub open spec fn spec_batch_acts(batch: Seq<(u64, FeedEvent)>, now: i64) -> Seq<Action>
    decreases batch.len(),
{
    if batch.len() == 0 {
        Seq::empty()
    } else {
        spec_event_acts(batch[0].0, batch[0].1, now) + spec_batch_acts(batch.skip(1), now)
    }
}

/// Whether an action is an output update addressed to a subscription that
/// the batch carries an event for.
pub open spec fn spec_act_targets_batch(a: Action, batch: Seq<(u64, FeedEvent)>) -> bool {
    match a {
        Action::UpdateTimestamp { sub_id, .. } => exists|m: int|
            0 <= m < batch.len() && (#[trigger] batch[m]).0 == sub_id,
        Action::UpdateTemperature { sub_id, .. } => exists|m: int|
            0 <= m < batch.len() && (#[trigger] batch[m]).0 == sub_id,
        _ => false,
    }
}

/// Dispatches one batch of (subscription, event) pairs: each event is
/// routed to the record of its subscription and evaluated against the
/// threshold, at wall-clock time `now`. The returned actions queue one
/// timestamp update and one temperature update per alerting event, and
/// end with the batch's single flush — a flush is issued once per batch,
/// never once per event, and every update names a subscription from the
/// batch.
///
/// A batch may only be dispatched when each referenced subscription has a
/// record: registration happens before delivery, so the unverified edge
/// checks this and treats a miss as a fatal invariant violation.
pub fn process_batch(
    reg: &mut SourceRegistry,
    batch: &Vec<(u64, FeedEvent)>,
    now: i64,
) -> (acts: Vec<Action>)
    requires
        old(reg).wf(),
        forall|k: int|
            0 <= k < batch@.len() ==> #[trigger] old(reg).spec_has_record(batch@[k].0),
    ensures
        final(reg).wf(),
        final(reg).knownv() == old(reg).knownv(),
        final(reg).recv() == spec_apply_batch(old(reg).recv(), batch@, now),
        acts@ == spec_batch_acts(batch@, now).push(Action::Flush),
        acts@.len() >= 1,
        forall|j: int|
            0 <= j < acts@.len() ==> ((#[trigger] acts@[j]) is Flush <==> j == acts@.len() - 1),
        forall|j: int|
            0 <= j < acts@.len() - 1 ==> spec_act_targets_batch(#[trigger] acts@[j], batch@),
{
    let mut acts: Vec<Action> = Vec::new();
    let n = batch.len();
    let mut k: usize = 0;
    proof {
        assert(batch@.skip(0) =~= batch@);
        assert(Seq::<Action>::empty() + spec_batch_acts(batch@, now) =~= spec_batch_acts(
            batch@,
            now,
        ));
    }
    while k < n
        invariant
            k <= n,
            n == batch@.len(),
            reg.wf(),
            reg.knownv() == old(reg).knownv(),
            reg.recv().len() == old(reg).recv().len(),
            forall|i: int|
                0 <= i < reg.recv().len() ==> (#[trigger] reg.recv()[i]).sub_id == old(
                    reg,
                ).recv()[i].sub_id,
            forall|j: int|
                0 <= j < batch@.len() ==> #[trigger] old(reg).spec_has_record(batch@[j].0),
            spec_apply_batch(old(reg).recv(), batch@, now) == spec_apply_batch(
                reg.recv(),
                batch@.skip(k as int),
                now,
            ),
            spec_batch_acts(batch@, now) == acts@ + spec_batch_acts(batch@.skip(k as int), now),
            forall|j: int|
                0 <= j < acts@.len() ==> spec_act_targets_batch(#[trigger] acts@[j], batch@),
            forall|j: int| 0 <= j < acts@.len() ==> !((#[trigger] acts@[j]) is Flush),
        decreases n - k,
    {
        let ghost s_before = reg.recv();
        let ghost acts_before = acts@;
        let pair = &batch[k];
        let id = pair.0;
        proof {
            assert(old(reg).spec_has_record(batch@[k as int].0));
            let w = choose|i: int|
                0 <= i < old(reg).recv().len() && old(reg).recv()[i].sub_id == id;
            assert(reg.recv()[w].sub_id == id);
            assert(reg.spec_has_record(id));
        }
        match &pair.1 {
            FeedEvent::Update(v) => {
                match cast_numeric(v) {
                    Some(reading) => {
                        if should_alert(reading) {
                            let rec = AlertRecord {
                                sub_id: id,
                                timestamp: Some(now),
                                temperature: Some(reading),
                            };
                            let ghost regb = *reg;
                            reg.update_record(id, rec);
                            proof {
                                let idx = regb.spec_record_index(id);
                                assert(batch@[k as int].1 == FeedEvent::Update(*v));
                                assert forall|j: int|
                                    0 <= j < reg.recv().len() implies reg.recv()[j]
                                    == spec_apply_to_all(
                                    s_before,
                                    id,
                                    batch@[k as int].1,
                                    now,
                                )[j] by {
                                    if s_before[j].sub_id == id {
                                        regb.lemma_record_index_unique(id, j);
                                        assert(j == idx);
                                        assert(reg.recv()[j] == rec);
                                    } else {
                                        if j == idx {
                                            assert(s_before[idx].sub_id == id);
                                        }
                                        assert(reg.recv()[j] == s_before[j]);
                                    }
                                }
                                assert(reg.recv() =~= spec_apply_to_all(
                                    s_before,
                                    id,
                                    batch@[k as int].1,
                                    now,
                                ));
                            }
                            acts.push(Action::UpdateTimestamp { sub_id: id, stamp: now });
                            acts.push(Action::UpdateTemperature { sub_id: id, reading });
                            proof {
                                assert((batch@[k as int]).0 == id);
                                assert(spec_act_targets_batch(
                                    (Action::UpdateTimestamp { sub_id: id, stamp: now }),
                                    batch@,
                                ));
                                assert(spec_act_targets_batch(
                                    (Action::UpdateTemperature { sub_id: id, reading }),
                                    batch@,
                                ));
                            }
                        } else {
                            proof {
                                assert(batch@[k as int].1 == FeedEvent::Update(*v));
                                assert(reg.recv() =~= spec_apply_to_all(
                                    s_before,
                                    id,
                                    batch@[k as int].1,
                                    now,
                                ));
                            }
                        }
                    },
                    None => {
                        proof {
                            assert(batch@[k as int].1 == FeedEvent::Update(*v));
                            assert(reg.recv() =~= spec_apply_to_all(
                                s_before,
                                id,
                                batch@[k as int].1,
                                now,
                            ));
                        }
                    },
                }
            },
            FeedEvent::Unsubscribed => {
                proof {
                    assert(reg.recv() =~= spec_apply_to_all(s_before, id, batch@[k as int].1, now));
                }
            },
        }
        proof {
            assert(batch@.skip(k as int)[0] == batch@[k as int]);
            assert(batch@.skip(k as int).skip(1) =~= batch@.skip(k as int + 1));
            assert(spec_apply_batch(s_before, batch@.skip(k as int), now) == spec_apply_batch(
                reg.recv(),
                batch@.skip(k as int + 1),
                now,
            ));
            assert(acts@ =~= acts_before + spec_event_acts(id, batch@[k as int].1, now));
            assert(spec_batch_acts(batch@.skip(k as int), now) == spec_event_acts(
                batch@[k as int].0,
                batch@[k as int].1,
                now,
            ) + spec_batch_acts(batch@.skip(k as int + 1), now));
            assert(acts_before + (spec_event_acts(id, batch@[k as int].1, now) + spec_batch_acts(
                batch@.skip(k as int + 1),
                now,
            )) =~= acts@ + spec_batch_acts(batch@.skip(k as int + 1), now));
        }
        k = k + 1;
    }
    proof {
        assert(batch@.skip(n as int) =~= Seq::<(u64, FeedEvent)>::empty());
        assert(acts@ + spec_batch_acts(batch@.skip(n as int), now) =~= acts@);
    }
    acts.push(Action::Flush);
    acts
}

/// Dispatches one batch at the current wall-clock time. The clock is read
/// once for the whole batch; whatever stamp it yields, the registry
/// afterwards is the batch applied at that single stamp.
pub fn process_batch_now(reg: &mut SourceRegistry, batch: &Vec<(u64, FeedEvent)>) -> (acts: Vec<
    Action,
>)
    requires
        old(reg).wf(),
        forall|k: int|
            0 <= k < batch@.len() ==> #[trigger] old(reg).spec_has_record(batch@[k].0),
    ensures
        final(reg).wf(),
        final(reg).knownv() == old(reg).knownv(),
        exists|now: i64|
            final(reg).recv() == spec_apply_batch(old(reg).recv(), batch@, now) && acts@
                == #[trigger] spec_batch_acts(batch@, now).push(Action::Flush),
        acts@.len() >= 1,
        forall|j: int|
            0 <= j < acts@.len() ==> ((#[trigger] acts@[j]) is Flush <==> j == acts@.len() - 1),
        forall|j: int|
            0 <= j < acts@.len() - 1 ==> spec_act_targets_batch(#[trigger] acts@[j], batch@),
{
    let now = now_utc_millis();
    let acts = process_batch(reg, batch, now);
    proof {
        assert(reg.recv() == spec_apply_batch(old(reg).recv(), batch@, now) && acts@
            == spec_batch_acts(batch@, now).push(Action::Flush));
    }
    acts
}

} // verus!
