use vstd::prelude::*;
use crate::discovery::spec_discovery_step;
use crate::dispatch::{spec_apply_batch, spec_apply_to_all};
use crate::paths::{lemma_find_slash_range, spec_cpu_temp_path, spec_find_slash, spec_host_of};
use crate::registry::{AlertRecord, SourceRegistry};
use crate::threshold::{spec_apply_event, spec_over_threshold};
use crate::value::{FeedEvent, FeedValue, spec_numeric};

verus! {

/// Discovery is idempotent: a host already in the known set is never
/// selected for registration again, however many listing results its
/// path appears in.
pub proof fn lemma_known_host_never_reselected(
    reg: SourceRegistry,
    path: Seq<char>,
    host: Seq<char>,
)
    requires
        reg.spec_known(host),
        spec_host_of(path) == Some(host),
    ensures
        spec_discovery_step(reg, path) is None,
{
}

/// Discovery and publication agree on naming: the host derived from a
/// source's canonical input path is that host itself, for any host name
/// without a '/' in it.
pub proof fn lemma_input_path_names_host(host: Seq<char>)
    requires
        forall|i: int| 0 <= i < host.len() ==> host[i] != '/',
    ensures
        spec_host_of(spec_cpu_temp_path(host)) == Some(host),
{
    reveal_strlit("/hw/");
    reveal_strlit("/cpu-temp");
    let p = spec_cpu_temp_path(host);
    let hl = host.len() as int;
    assert(p.len() == 13 + hl);
    assert(p[0] == '/');
    lemma_find_slash_range(p, 0, 0);
    assert(p[1] == 'h' && p[2] == 'w' && p[3] == '/');
    lemma_find_slash_range(p, 1, 3);
    assert(forall|k: int| 4 <= k < 4 + hl ==> p[k] == host[k - 4]);
    assert(p[4 + hl] == '/');
    lemma_find_slash_range(p, 4, 4 + hl);
    assert(spec_find_slash(p, 0) == 0);
    assert(spec_find_slash(p, 1) == 3);
    assert(spec_find_slash(p, 4) == 4 + hl);
    assert(p.subrange(4, 4 + hl) =~= host);
}

/// Dispatching changes no record's identity and drops none: a batch maps
/// each record to a record of the same subscription, at the same place.
pub proof fn lemma_batch_preserves_bindings(
    s: Seq<AlertRecord>,
    batch: Seq<(u64, FeedEvent)>,
    now: i64,
)
    ensures
        spec_apply_batch(s, batch, now).len() == s.len(),
        forall|i: int|
            0 <= i < s.len() ==> (#[trigger] spec_apply_batch(s, batch, now)[i]).sub_id
                == s[i].sub_id,
    decreases batch.len(),
{
    if batch.len() > 0 {
        let s1 = spec_apply_to_all(s, batch[0].0, batch[0].1, now);
        lemma_batch_preserves_bindings(s1, batch.skip(1), now);
    }
}

/// Registration happens before delivery and nothing unregisters: once a
/// subscription has an alert record, it still has one after any batch, so
/// an identifier delivered in an event batch can always be looked up.
pub proof fn lemma_record_persists(
    s: Seq<AlertRecord>,
    batch: Seq<(u64, FeedEvent)>,
    now: i64,
    id: u64,
    i: int,
)
    requires
        0 <= i < s.len(),
        s[i].sub_id == id,
    ensures
        spec_apply_batch(s, batch, now)[i].sub_id == id,
        spec_apply_batch(s, batch, now).len() == s.len(),
{
    lemma_batch_preserves_bindings(s, batch, now);
}

/// The alert is sticky: once a record carries an over-threshold reading,
/// a subsequent reading at or under the threshold leaves the record — its
/// timestamp and its temperature — exactly as it was.
pub proof fn lemma_sticky_alert(rec: AlertRecord, v: FeedValue, n: i64, now: i64)
    requires
        rec.temperature is Some,
        spec_numeric(v) == Some(n),
        !spec_over_threshold(n),
    ensures
        spec_apply_event(rec, FeedEvent::Update(v), now) == rec,
{
}

/// A batch touches at most its own subscriptions: any record that a batch
/// changes belongs to a subscription the batch carries an event for, so a
/// batch with events for N distinct subscriptions updates at most N
/// records. (The dispatcher's contract adds the flush side: exactly one
/// flush per batch.)
pub proof fn lemma_batch_update_bound(
    s: Seq<AlertRecord>,
    batch: Seq<(u64, FeedEvent)>,
    now: i64,
    i: int,
)
    requires
        0 <= i < s.len(),
        spec_apply_batch(s, batch, now)[i] != s[i],
    ensures
        exists|m: int| 0 <= m < batch.len() && (#[trigger] batch[m]).0 == s[i].sub_id,
    decreases batch.len(),
{
    lemma_batch_preserves_bindings(s, batch, now);
    if batch.len() > 0 {
        let s1 = spec_apply_to_all(s, batch[0].0, batch[0].1, now);
        if s1[i] == s[i] {
            lemma_batch_update_bound(s1, batch.skip(1), now, i);
            let m = choose|m: int|
                0 <= m < batch.skip(1).len() && (#[trigger] batch.skip(1)[m]).0 == s1[i].sub_id;
            assert(batch[m + 1].0 == s[i].sub_id);
        } else {
            assert(s[i].sub_id == batch[0].0);
        }
    }
}

} // verus!
