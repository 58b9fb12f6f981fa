//! Idempotent schema migration planning.
//!
//! Applied migrations are recorded in a ledger keyed by a strictly
//! increasing version number.  A run applies exactly the defined migrations
//! whose version exceeds the highest recorded one, in ascending order, and
//! records each as it is applied.  Running the same definitions twice
//! therefore applies nothing the second time.
//!
//! The runner plans and records; actually executing a migration against the
//! database happens outside, one migration at a time, and a failure there
//! stops the batch with nothing further attempted.

use vstd::prelude::*;

verus! {

/// A migration definition: a versioned, named schema change waiting to be
/// applied.  Definitions are embedded in the binary, so the name lives for
/// the whole process.
#[derive(Clone, Copy, Debug)]
pub struct MigrationDef {
    pub version: u64,
    pub name: &'static str,
}

/// A ledger entry: a migration that has been applied, with the time it was
/// applied at.
#[derive(Clone, Copy, Debug)]
pub struct MigrationRecord {
    pub version: u64,
    pub name: &'static str,
    pub applied_at: u64,
}

/// Migration definitions come in strictly ascending version order.
pub open spec fn defs_ascending(s: Seq<MigrationDef>) -> bool {
    forall|i: int, j: int| 0 <= i < j < s.len() ==> s[i].version < s[j].version
}

/// Selects the definitions with a version above `v`.
pub open spec fn newer_than(v: int) -> spec_fn(MigrationDef) -> bool {
    |d: MigrationDef| d.version > v
}

/// The record written when a definition is applied at time `at`.
pub open spec fn stamped(at: u64) -> spec_fn(int, MigrationDef) -> MigrationRecord {
    |i: int, d: MigrationDef|
        MigrationRecord { version: d.version, name: d.name, applied_at: at }
}

/// The persisted ledger of applied migrations.
pub struct Ledger {
    pub records: Vec<MigrationRecord>,
}

impl Ledger {
    /// Well-formed: recorded versions are strictly ascending.
    pub open spec fn wf(&self) -> bool {
        forall|i: int, j: int|
            0 <= i < j < self.records@.len() ==> self.records@[i].version
                < self.records@[j].version
    }

    /// The highest recorded version; below every version when the ledger
    /// is empty.
    pub open spec fn max_version(&self) -> int {
        if self.records@.len() == 0 {
            -1
        } else {
            self.records@.last().version as int
        }
    }

    /// An empty ledger.
    pub fn new() -> (l: Ledger)
        ensures
            l.wf(),
            l.records@.len() == 0,
    {
        Ledger { records: Vec::new() }
    }

    /// The number of recorded migrations.
    pub fn len(&self) -> (n: usize)
        ensures
            n == self.records@.len(),
    {
        self.records.len()
    }

    /// The migrations not yet applied: exactly the definitions whose
    /// version exceeds the highest recorded one, in their given
    /// (ascending) order.
    pub fn pending(&self, defs: &Vec<MigrationDef>) -> (p: Vec<MigrationDef>)
        requires
            self.wf(),
            defs_ascending(defs@),
        ensures
            p@ == defs@.filter(newer_than(self.max_version())),
    {
        let ghost all = defs@;
        let ghost pred = newer_than(self.max_version());
        let mut p: Vec<MigrationDef> = Vec::new();
        let mut i: usize = 0;
        proof {
            assert(all.subrange(0, 0) =~= Seq::<MigrationDef>::empty());
            reveal(Seq::filter);
        }
        while i < defs.len()
            invariant
                all == defs@,
                0 <= i <= all.len(),
                p@ == all.subrange(0, i as int).filter(pred),
                pred == newer_than(self.max_version()),
                self.wf(),
            decreases defs.len() - i,
        {
            let ghost prefix = all.subrange(0, i as int);
            let d = defs[i];
            proof {
                assert(all.subrange(0, i + 1) =~= prefix.push(d));
                assert(prefix.push(d).drop_last() =~= prefix);
                reveal(Seq::filter);
            }
            let hi = self.records.len();
            let keep = if hi == 0 {
                true
            } else {
                d.version > self.records[hi - 1].version
            };
            proof {
                assert(keep == pred(d));
            }
            if keep {
                p.push(d);
            }
            i += 1;
        }
        proof {
            assert(all.subrange(0, all.len() as int) =~= all);
        }
        p
    }

    /// Records one applied migration.  Its version must exceed everything
    /// recorded so far, which keeps the ledger well formed.
    pub fn record_applied(&mut self, version: u64, name: &'static str, applied_at: u64)
        requires
            old(self).wf(),
            version > old(self).max_version(),
        ensures
            final(self).wf(),
            final(self).records@ == old(self).records@.push(
                MigrationRecord { version, name, applied_at },
            ),
            final(self).max_version() == version,
    {
        self.records.push(MigrationRecord { version, name, applied_at });
    }

    /// Applies a full batch: appends a record, stamped `applied_at`, for
    /// every pending definition, in ascending order, and returns the newly
    /// written records.  Models a run in which every pending migration
    /// applies successfully; a second run with the same definitions finds
    /// nothing pending.
    pub fn run(&mut self, defs: &Vec<MigrationDef>, applied_at: u64) -> (applied: Vec<
        MigrationRecord,
    >)
        requires
            old(self).wf(),
            defs_ascending(defs@),
        ensures
            final(self).wf(),
            applied@ == defs@.filter(newer_than(old(self).max_version())).map(
                stamped(applied_at),
            ),
            final(self).records@ == old(self).records@ + applied@,
            // Nothing is applied exactly when every definition is already
            // recorded as applied.
            applied@.len() == 0 <==> defs@.filter(newer_than(old(self).max_version())).len() == 0,
    {
        let ghost maxv = self.max_version();
        let ghost pend = defs@.filter(newer_than(maxv));
        let ghost out = pend.map(stamped(applied_at));
        let todo = self.pending(defs);
        let mut applied: Vec<MigrationRecord> = Vec::new();
        let mut k: usize = 0;
        proof {
            lemma_filter_ascending(defs@, maxv);
            assert(out.take(0) =~= Seq::<MigrationRecord>::empty());
            assert(self.records@ =~= old(self).records@ + applied@);
        }
        while k < todo.len()
            invariant
                self.wf(),
                todo@ == pend,
                out == pend.map(stamped(applied_at)),
                defs_ascending(pend),
                forall|i: int| 0 <= i < pend.len() ==> (#[trigger] pend[i]).version > maxv,
                0 <= k <= pend.len(),
                applied@ == out.take(k as int),
                self.records@ == old(self).records@ + applied@,
                k == 0 ==> self.max_version() == maxv,
                k > 0 ==> self.max_version() == pend[k - 1].version,
            decreases todo.len() - k,
        {
            let d = todo[k];
            proof {
                assert(d == pend[k as int]);
                if k > 0 {
                    assert(pend[k - 1].version < pend[k as int].version);
                }
            }
            self.record_applied(d.version, d.name, applied_at);
            applied.push(MigrationRecord { version: d.version, name: d.name, applied_at });
            proof {
                assert(out[k as int] == stamped(applied_at)(k as int, pend[k as int]));
                assert(applied@ =~= out.take(k + 1));
                assert(self.records@ =~= old(self).records@ + applied@);
            }
            k += 1;
        }
        proof {
            assert(out.take(pend.len() as int) =~= out);
        }
        applied
    }
}

/// A migration failed to apply: fatal, and nothing further in the batch
/// is attempted.
#[derive(PartialEq, Eq, Structural, Clone, Copy, Debug)]
pub enum MigrationError {
    ApplyFailed { version: u64 },
}

impl Ledger {
    /// Applies a batch against a database that may refuse individual
    /// migrations: `ok[i]` reports whether the `i`-th pending migration
    /// applied.  Every successfully applied migration is recorded; at the
    /// first failure the batch stops — nothing after it is attempted —
    /// and the failing version is reported.  Succeeds exactly when every
    /// pending migration applied.
    pub fn apply_batch(&mut self, defs: &Vec<MigrationDef>, ok: &Vec<bool>, applied_at: u64) -> (r:
        Result<Vec<MigrationRecord>, MigrationError>)
        requires
            old(self).wf(),
            defs_ascending(defs@),
            ok@.len() == defs@.filter(newer_than(old(self).max_version())).len(),
        ensures
            final(self).wf(),
            ({
                let pend = defs@.filter(newer_than(old(self).max_version()));
                let out = pend.map(stamped(applied_at));
                &&& (r is Ok <==> forall|i: int| 0 <= i < pend.len() ==> ok@[i])
                &&& (r is Ok ==> r->Ok_0@ == out && final(self).records@ == old(self).records@
                    + out)
                &&& (r is Err ==> exists|k: int|
                    #![trigger ok@[k]]
                    {
                        &&& 0 <= k < pend.len()
                        &&& !ok@[k]
                        &&& (forall|j: int| 0 <= j < k ==> ok@[j])
                        &&& r->Err_0 == (MigrationError::ApplyFailed { version: pend[k].version })
                        &&& final(self).records@ == old(self).records@ + out.take(k)
                    })
            }),
    {
        let ghost maxv = self.max_version();
        let ghost pend = defs@.filter(newer_than(maxv));
        let ghost out = pend.map(stamped(applied_at));
        let todo = self.pending(defs);
        let mut applied: Vec<MigrationRecord> = Vec::new();
        let mut k: usize = 0;
        proof {
            lemma_filter_ascending(defs@, maxv);
            assert(out.take(0) =~= Seq::<MigrationRecord>::empty());
            assert(self.records@ =~= old(self).records@ + applied@);
        }
        while k < todo.len()
            invariant
                self.wf(),
                maxv == old(self).max_version(),
                pend == defs@.filter(newer_than(maxv)),
                todo@ == pend,
                ok@.len() == pend.len(),
                out == pend.map(stamped(applied_at)),
                defs_ascending(pend),
                forall|i: int| 0 <= i < pend.len() ==> (#[trigger] pend[i]).version > maxv,
                0 <= k <= pend.len(),
                forall|j: int| 0 <= j < k ==> ok@[j],
                applied@ == out.take(k as int),
                self.records@ == old(self).records@ + applied@,
                k == 0 ==> self.max_version() == maxv,
                k > 0 ==> self.max_version() == pend[k - 1].version,
            decreases todo.len() - k,
        {
            let d = todo[k];
            proof {
                assert(d == pend[k as int]);
                if k > 0 {
                    assert(pend[k - 1].version < pend[k as int].version);
                }
            }
            if !ok[k] {
                let failure = MigrationError::ApplyFailed { version: d.version };
                proof {
                    let kk = k as int;
                    assert(!(forall|i: int| 0 <= i < pend.len() ==> ok@[i])) by {
                        assert(0 <= kk < pend.len() && !ok@[kk]);
                    };
                    assert(exists|w: int|
                        #![trigger ok@[w]]
                        {
                            &&& 0 <= w < pend.len()
                            &&& !ok@[w]
                            &&& (forall|j: int| 0 <= j < w ==> ok@[j])
                            &&& failure == (MigrationError::ApplyFailed {
                                version: pend[w].version,
                            })
                            &&& self.records@ == old(self).records@ + out.take(w)
                        }) by {
                        assert(0 <= kk < pend.len());
                        assert(!ok@[kk]);
                        assert(forall|j: int| 0 <= j < kk ==> ok@[j]);
                        assert(failure == (MigrationError::ApplyFailed {
                            version: pend[kk].version,
                        }));
                        assert(self.records@ == old(self).records@ + out.take(kk));
                    };
                }
                return Err(failure);
            }
            self.record_applied(d.version, d.name, applied_at);
            applied.push(MigrationRecord { version: d.version, name: d.name, applied_at });
            proof {
                assert(out[k as int] == stamped(applied_at)(k as int, pend[k as int]));
                assert(applied@ =~= out.take(k + 1));
                assert(self.records@ =~= old(self).records@ + applied@);
            }
            k += 1;
        }
        proof {
            assert(out.take(pend.len() as int) =~= out);
        }
        Ok(applied)
    }
}

/// In a strictly ascending sequence, the definitions above `v` are still
/// strictly ascending and all exceed `v`.
pub proof fn lemma_filter_ascending(s: Seq<MigrationDef>, v: int)
    requires
        defs_ascending(s),
    ensures
        defs_ascending(s.filter(newer_than(v))),
        forall|i: int|
            0 <= i < s.filter(newer_than(v)).len() ==> (#[trigger] s.filter(newer_than(v))[i]).version
                > v,
    decreases s.len(),
{
    reveal(Seq::filter);
    if s.len() == 0 {
    } else {
        assert(defs_ascending(s.drop_last()));
        lemma_filter_ascending(s.drop_last(), v);
        let f = s.filter(newer_than(v));
        let g = s.drop_last().filter(newer_than(v));
        if newer_than(v)(s.last()) {
            assert(f =~= g.push(s.last()));
            assert(forall|i: int|
                0 <= i < g.len() ==> exists|j: int|
                    0 <= j < s.drop_last().len() && #[trigger] g[i] == s.drop_last()[j]) by {
                lemma_filter_members(s.drop_last(), v);
            }
            assert(forall|i: int| 0 <= i < g.len() ==> (#[trigger] g[i]).version < s.last().version)
                by {
                lemma_filter_members(s.drop_last(), v);
            }
        } else {
            assert(f =~= g);
        }
    }
}

/// Every element that the filter keeps is one of the original's elements.
pub proof fn lemma_filter_members(s: Seq<MigrationDef>, v: int)
    ensures
        forall|i: int|
            0 <= i < s.filter(newer_than(v)).len() ==> exists|j: int|
                0 <= j < s.len() && #[trigger] s.filter(newer_than(v))[i] == s[j],
    decreases s.len(),
{
    reveal(Seq::filter);
    if s.len() == 0 {
    } else {
        lemma_filter_members(s.drop_last(), v);
        let f = s.filter(newer_than(v));
        let g = s.drop_last().filter(newer_than(v));
        assert(forall|i: int|
            0 <= i < g.len() ==> exists|j: int| 0 <= j < s.len() && #[trigger] g[i] == s[j]) by {
            assert(forall|j: int| 0 <= j < s.drop_last().len() ==> s.drop_last()[j] == s[j]);
        }
        if newer_than(v)(s.last()) {
            assert(f =~= g.push(s.last()));
            assert(f[f.len() - 1] == s[s.len() - 1]);
        } else {
            assert(f =~= g);
        }
    }
}

/// If no element passes the filter, the filter is empty.
pub proof fn lemma_filter_none(s: Seq<MigrationDef>, v: int)
    requires
        forall|i: int| 0 <= i < s.len() ==> !newer_than(v)((#[trigger] s[i])),
    ensures
        s.filter(newer_than(v)).len() == 0,
    decreases s.len(),
{
    reveal(Seq::filter);
    if s.len() == 0 {
    } else {
        assert(forall|i: int|
            0 <= i < s.drop_last().len() ==> !newer_than(v)((#[trigger] s.drop_last()[i])));
        lemma_filter_none(s.drop_last(), v);
        assert(!newer_than(v)(s.last()));
    }
}

/// When the last element passes the filter, it is also the filter's last
/// element.
pub proof fn lemma_filter_keeps_last(s: Seq<MigrationDef>, v: int)
    requires
        s.len() > 0,
        newer_than(v)(s.last()),
    ensures
        s.filter(newer_than(v)).len() > 0,
        s.filter(newer_than(v)).last() == s.last(),
{
    reveal(Seq::filter);
}

/// A full, successful run is idempotent: once the records it appends stand
/// in the ledger, nothing in the same definitions is pending any more, so
/// a second run applies nothing.
pub proof fn lemma_run_idempotent(
    before: Ledger,
    after: Ledger,
    defs: Seq<MigrationDef>,
    applied: Seq<MigrationRecord>,
    at: u64,
)
    requires
        before.wf(),
        defs_ascending(defs),
        applied == defs.filter(newer_than(before.max_version())).map(stamped(at)),
        after.records@ == before.records@ + applied,
    ensures
        defs.filter(newer_than(after.max_version())).len() == 0,
{
    let pend = defs.filter(newer_than(before.max_version()));
    if pend.len() == 0 {
        assert(applied.len() == 0);
        assert(after.records@ =~= before.records@);
        assert(after.max_version() == before.max_version());
        assert(newer_than(after.max_version()) == newer_than(before.max_version()));
        assert(defs.filter(newer_than(after.max_version())) == pend);
    } else {
        lemma_filter_members(defs, before.max_version());
        lemma_filter_ascending(defs, before.max_version());
        assert(pend[pend.len() - 1].version > before.max_version());
        let j = choose|j: int| 0 <= j < defs.len() && pend[pend.len() - 1] == defs[j];
        assert(defs[j].version <= defs.last().version);
        assert(newer_than(before.max_version())(defs.last()));
        lemma_filter_keeps_last(defs, before.max_version());
        assert(pend.last() == defs.last());
        assert(applied.len() == pend.len());
        assert(applied.last() == stamped(at)(pend.len() - 1, pend.last()));
        assert(after.records@.last() == applied.last());
        assert(after.max_version() == defs.last().version);
        assert(forall|i: int|
            0 <= i < defs.len() ==> (#[trigger] defs[i]).version <= defs.last().version);
        lemma_filter_none(defs, after.max_version());
    }
}

} // verus!
