use vstd::prelude::*;
use crate::paths::{extract_host, spec_host_of};
use crate::registry::SourceRegistry;

verus! {

/// The discovery decision for one listed path: the host to register, or
/// `None` when the path carries no host segment or the host is already in
/// the known set. A known host is therefore never registered twice,
/// however many polls list it.
pub open spec fn spec_discovery_step(reg: SourceRegistry, path: Seq<char>) -> Option<Seq<char>> {
    match spec_host_of(path) {
        Some(h) => if reg.spec_known(h) {
            None
        } else {
            Some(h)
        },
        None => None,
    }
}

/// Decides what a discovery poll does with one listed path.
pub fn discovery_step(reg: &SourceRegistry, path: &str) -> (r: Option<String>)
    ensures
        r is Some <==> spec_discovery_step(*reg, path@) is Some,
        r matches Some(h) ==> spec_discovery_step(*reg, path@) == Some(h@),
{
    match extract_host(path) {
        Some(h) => {
            if reg.is_known(&h) {
                None
            } else {
                Some(h)
            }
        },
        None => None,
    }
}

} // verus!
