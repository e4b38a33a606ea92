use vstd::prelude::*;
use crate::actions::Action;
use crate::paths::{overtemp_path, overtemp_ts_path, spec_overtemp_path, spec_overtemp_ts_path};
use crate::registry::{AlertRecord, SourceRegistry};
use crate::value::FeedValue;

verus! {

/// Registration step for one newly discovered source: binds the broker's
/// fresh subscription identifier to a null-seeded alert record under the
/// registry, and returns the two publish operations that create the
/// host's derived outputs, both seeded with the null value. The caller
/// performs them, then flushes, before releasing the registry to the
/// dispatch loop, so an event for `sub_id` can never find the record or
/// its outputs missing.
pub fn bind_source(reg: &mut SourceRegistry, host: &String, sub_id: u64) -> (acts: Vec<Action>)
    requires
        old(reg).wf(),
        !old(reg).spec_known(host@),
        !old(reg).spec_has_record(sub_id),
    ensures
        final(reg).wf(),
        final(reg).knownv() == old(reg).knownv().push(host@),
        final(reg).recv() == old(reg).recv().push(
            (AlertRecord { sub_id, timestamp: None, temperature: None }),
        ),
        final(reg).spec_known(host@),
        final(reg).spec_has_record(sub_id),
        final(reg).spec_record(sub_id) == (AlertRecord {
            sub_id,
            timestamp: None,
            temperature: None,
        }),
        acts@.len() == 2,
        acts@[0] matches Action::Publish { path, value } && path@ == spec_overtemp_ts_path(host@)
            && value is Null,
        acts@[1] matches Action::Publish { path, value } && path@ == spec_overtemp_path(host@)
            && value is Null,
{
    reg.register(host, sub_id);
    let mut acts: Vec<Action> = Vec::new();
    acts.push(Action::Publish { path: overtemp_ts_path(host), value: FeedValue::Null });
    acts.push(Action::Publish { path: overtemp_path(host), value: FeedValue::Null });
    acts
}

} // verus!
