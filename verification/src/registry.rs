use vstd::prelude::*;

verus! {

/// The alert state bound to one subscription: the values most recently
/// queued on its two derived outputs. `None` stands for the null value the
/// outputs are seeded with, before any over-threshold reading.
#[derive(Debug, Clone, Copy)]
pub struct AlertRecord {
    /// Identifier the broker assigned to the source's subscription.
    pub sub_id: u64,
    /// Queued alert timestamp, milliseconds since the Unix epoch, UTC.
    pub timestamp: Option<i64>,
    /// Queued alert reading, millionths of a degree.
    pub temperature: Option<i64>,
}

/// Deduplicated set of known sources plus the binding from subscription
/// identifier to alert record. The discovery loop only inserts; the
/// dispatch loop only rewrites record values; nothing is ever removed.
#[derive(Debug)]
pub struct SourceRegistry {
    known: Vec<String>,
    records: Vec<AlertRecord>,
}

impl SourceRegistry {
    /// The hosts already seen, in registration order.
    pub closed spec fn knownv(self) -> Seq<Seq<char>> {
        self.known@.map_values(|s: String| s@)
    }

    /// The alert records, one per registered source, in registration order.
    pub closed spec fn recv(self) -> Seq<AlertRecord> {
        self.records@
    }

    pub open spec fn spec_known(self, host: Seq<char>) -> bool {
        self.knownv().contains(host)
    }

    pub open spec fn spec_has_record(self, id: u64) -> bool {
        exists|i: int| 0 <= i < self.recv().len() && self.recv()[i].sub_id == id
    }

    pub open spec fn spec_record_index(self, id: u64) -> int {
        choose|i: int| 0 <= i < self.recv().len() && self.recv()[i].sub_id == id
    }

    /// The record bound to `id`; meaningful only when `spec_has_record(id)`.
    pub open spec fn spec_record(self, id: u64) -> AlertRecord {
        self.recv()[self.spec_record_index(id)]
    }

    /// No source is tracked twice, and no subscription has two records.
    pub open spec fn wf(self) -> bool {
        &&& forall|i: int, j: int|
            0 <= i < j < self.knownv().len() ==> self.knownv()[i] != self.knownv()[j]
        &&& forall|i: int, j: int|
            0 <= i < j < self.recv().len() ==> self.recv()[i].sub_id != self.recv()[j].sub_id
    }

    /// In a well-formed registry the record for a subscription sits at a
    /// single index, so any index holding `id` is the one `spec_record`
    /// reads.
    pub proof fn lemma_record_index_unique(self, id: u64, i: int)
        requires
            self.wf(),
            0 <= i < self.recv().len(),
            self.recv()[i].sub_id == id,
        ensures
            self.spec_has_record(id),
            self.spec_record_index(id) == i,
            self.spec_record(id) == self.recv()[i],
    {
        assert(self.spec_has_record(id));
        let j = self.spec_record_index(id);
        assert(0 <= j < self.recv().len() && self.recv()[j].sub_id == id);
        if i < j {
            assert(self.recv()[i].sub_id != self.recv()[j].sub_id);
        } else if j < i {
            assert(self.recv()[j].sub_id != self.recv()[i].sub_id);
        }
    }

    /// An empty registry: no known source, no record.
    pub fn new() -> (r: SourceRegistry)
        ensures
            r.wf(),
            r.knownv() == Seq::<Seq<char>>::empty(),
            r.recv() == Seq::<AlertRecord>::empty(),
    {
        let r = SourceRegistry { known: Vec::new(), records: Vec::new() };
        proof {
            assert(r.knownv() =~= Seq::<Seq<char>>::empty());
            assert(r.recv() =~= Seq::<AlertRecord>::empty());
        }
        r
    }

    /// Whether a host has already been registered by some earlier poll.
    pub fn is_known(&self, host: &String) -> (r: bool)
        ensures
            r == self.spec_known(host@),
    {
        let n = self.known.len();
        let mut i: usize = 0;
        while i < n
            invariant
                i <= n,
                n == self.known.len(),
                forall|k: int| 0 <= k < i ==> self.knownv()[k] != host@,
            decreases n - i,
        {
            if self.known[i].eq(host) {
                assert(self.knownv()[i as int] == host@);
                return true;
            }
            i = i + 1;
        }
        false
    }

    /// Whether a subscription identifier is bound to an alert record.
    pub fn has_record(&self, sub_id: u64) -> (r: bool)
        ensures
            r == self.spec_has_record(sub_id),
    {
        let n = self.records.len();
        let mut i: usize = 0;
        while i < n
            invariant
                i <= n,
                n == self.records.len(),
                forall|k: int| 0 <= k < i ==> self.recv()[k].sub_id != sub_id,
            decreases n - i,
        {
            if self.records[i].sub_id == sub_id {
                return true;
            }
            i = i + 1;
        }
        false
    }

    /// Looks up the alert record bound to a subscription identifier.
    pub fn get_record(&self, sub_id: u64) -> (r: Option<AlertRecord>)
        requires
            self.wf(),
        ensures
            r is Some <==> self.spec_has_record(sub_id),
            r matches Some(rec) ==> rec == self.spec_record(sub_id),
    {
        let n = self.records.len();
        let mut i: usize = 0;
        while i < n
            invariant
                i <= n,
                n == self.records.len(),
                self.wf(),
                forall|k: int| 0 <= k < i ==> self.recv()[k].sub_id != sub_id,
            decreases n - i,
        {
            if self.records[i].sub_id == sub_id {
                proof {
                    self.lemma_record_index_unique(sub_id, i as int);
                }
                return Some(self.records[i]);
            }
            i = i + 1;
        }
        None
    }

    /// Registration step: record a newly discovered host as known and bind
    /// its fresh subscription to a record whose outputs are still the null
    /// seed. The caller guards idempotence by registering only hosts that
    /// `is_known` rejected, under the same registry lock that the dispatch
    /// loop takes, so no event can see the subscription without its record.
    pub fn register(&mut self, host: &String, sub_id: u64)
        requires
            old(self).wf(),
            !old(self).spec_known(host@),
            !old(self).spec_has_record(sub_id),
        ensures
            final(self).wf(),
            final(self).knownv() == old(self).knownv().push(host@),
            final(self).recv() == old(self).recv().push(
                (AlertRecord { sub_id, timestamp: None, temperature: None }),
            ),
            final(self).spec_known(host@),
            final(self).spec_has_record(sub_id),
            final(self).spec_record(sub_id) == (AlertRecord {
                sub_id,
                timestamp: None,
                temperature: None,
            }),
    {
        self.known.push(host.clone());
        self.records.push(AlertRecord { sub_id, timestamp: None, temperature: None });
        proof {
            let ghost rec = AlertRecord { sub_id, timestamp: None, temperature: None };
            assert(self.knownv() =~= old(self).knownv().push(host@));
            assert(self.recv() =~= old(self).recv().push(rec));
            let n = old(self).knownv().len() as int;
            assert(forall|i: int| 0 <= i < n ==> old(self).knownv()[i] != host@);
            assert(self.knownv()[n] == host@);
            let m = old(self).recv().len() as int;
            assert(forall|i: int| 0 <= i < m ==> old(self).recv()[i].sub_id != sub_id);
            assert(self.recv()[m].sub_id == sub_id);
            self.lemma_record_index_unique(sub_id, m);
        }
    }

    /// Rewrites the record bound to `sub_id`, leaving every other record
    /// and the known set untouched. Only the dispatch loop calls this, and
    /// only with a record for the same subscription.
    pub fn update_record(&mut self, sub_id: u64, rec: AlertRecord)
        requires
            old(self).wf(),
            old(self).spec_has_record(sub_id),
            rec.sub_id == sub_id,
        ensures
            final(self).wf(),
            final(self).knownv() == old(self).knownv(),
            final(self).recv() == old(self).recv().update(
                old(self).spec_record_index(sub_id),
                rec,
            ),
            final(self).spec_has_record(sub_id),
            final(self).spec_record(sub_id) == rec,
    {
        let n = self.records.len();
        let mut i: usize = 0;
        while i < n
            invariant
                i <= n,
                n == self.records.len(),
                *self == *old(self),
                old(self).wf(),
                old(self).spec_has_record(sub_id),
                rec.sub_id == sub_id,
                forall|k: int| 0 <= k < i ==> old(self).recv()[k].sub_id != sub_id,
            decreases n - i,
        {
            if self.records[i].sub_id == sub_id {
                proof {
                    old(self).lemma_record_index_unique(sub_id, i as int);
                }
                self.records[i] = rec;
                proof {
                    assert(self.recv() =~= old(self).recv().update(i as int, rec));
                    assert forall|k: int| 0 <= k < self.recv().len() implies self.recv()[k].sub_id
                        == old(self).recv()[k].sub_id by {
                        if k == i as int {
                            assert(self.recv()[k] == rec);
                        } else {
                            assert(self.recv()[k] == old(self).recv()[k]);
                        }
                    }
                    assert(self.knownv() =~= old(self).knownv());
                    self.lemma_record_index_unique(sub_id, i as int);
                }
                return;
            }
            i = i + 1;
        }
        proof {
            assert(!old(self).spec_has_record(sub_id));
        }
    }
}

} // verus!
