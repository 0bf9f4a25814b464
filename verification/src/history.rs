//! In-memory history of run records.
//!
//! This is the engine's model of the record store: records are created
//! `Running` when a run begins and finalized exactly once to a terminal
//! status. Identifiers are assigned in strictly increasing order, so a
//! record keeps its identity even after older records are cleared.

use vstd::prelude::*;

verus! {

use crate::models::{EngineError, RunRecord, RunStatus};

/// Run records ordered by creation, with strictly increasing identifiers.
pub struct HistoryStore {
    records: Vec<RunRecord>,
    next_id: i64,
}

impl View for HistoryStore {
    type V = Seq<RunRecord>;

    closed spec fn view(&self) -> Seq<RunRecord> {
        self.records@
    }
}

/// The most recent records of `s` for `script_id`, newest first, at most
/// `limit` of them.
pub open spec fn recent_records_for(s: Seq<RunRecord>, script_id: i64, limit: int) -> Seq<
    RunRecord,
>
    decreases s.len(),
{
    if s.len() == 0 || limit <= 0 {
        Seq::empty()
    } else if s.last().script_id == script_id {
        seq![s.last()] + recent_records_for(s.drop_last(), script_id, limit - 1)
    } else {
        recent_records_for(s.drop_last(), script_id, limit)
    }
}

/// The most recent record of `s` for `script_id`, if any.
pub open spec fn latest_record_for(s: Seq<RunRecord>, script_id: i64) -> Option<RunRecord>
    decreases s.len(),
{
    if s.len() == 0 {
        None
    } else if s.last().script_id == script_id {
        Some(s.last())
    } else {
        latest_record_for(s.drop_last(), script_id)
    }
}

impl HistoryStore {
    /// Identifier the next created record will receive.
    pub closed spec fn spec_next_id(&self) -> i64 {
        self.next_id
    }

    /// Every stored record is well formed, identifiers are positive,
    /// strictly increasing, and below the next free identifier.
    pub open spec fn wf(&self) -> bool {
        &&& 0 < self.spec_next_id()
        &&& forall|i: int| 0 <= i < self@.len() ==> (#[trigger] self@[i]).wf()
        &&& forall|i: int|
            0 <= i < self@.len() ==> 0 < (#[trigger] self@[i]).id < self.spec_next_id()
        &&& forall|i: int, j: int| 0 <= i < j < self@.len() ==> self@[i].id < self@[j].id
    }

    pub fn new() -> (r: Self)
        ensures
            r@ == Seq::<RunRecord>::empty(),
            r.wf(),
            r.spec_next_id() == 1,
    {
        HistoryStore { records: Vec::new(), next_id: 1 }
    }

    /// Create a new `Running` record for `script_id` and return a copy of it.
    /// Fails only when the identifier space is exhausted, in which case the
    /// store is unchanged.
    pub fn insert_run_record(&mut self, script_id: i64, started_at: &str) -> (r: Result<
        RunRecord,
        EngineError,
    >)
        requires
            old(self).wf(),
        ensures
            final(self).wf(),
            match r {
                Ok(rec) => {
                    &&& final(self)@ == old(self)@.push(rec)
                    &&& rec.id == old(self).spec_next_id()
                    &&& rec.script_id == script_id
                    &&& rec.started_at@ == started_at@
                    &&& rec.finished_at is None
                    &&& rec.exit_code is None
                    &&& rec.output is None
                    &&& rec.status == RunStatus::Running
                    &&& final(self).spec_next_id() == old(self).spec_next_id() + 1
                },
                Err(e) => {
                    &&& e == EngineError::StoreFull
                    &&& old(self).spec_next_id() == i64::MAX
                    &&& *final(self) == *old(self)
                },
            },
            r is Ok <==> old(self).spec_next_id() < i64::MAX,
    {
        if self.next_id == i64::MAX {
            return Err(EngineError::StoreFull);
        }
        let rec = RunRecord {
            id: self.next_id,
            script_id,
            started_at: started_at.to_owned(),
            finished_at: None,
            exit_code: None,
            output: None,
            status: RunStatus::Running,
        };
        let copy = rec.clone();
        self.records.push(rec);
        self.next_id = self.next_id + 1;
        proof {
            let s_old = old(self)@;
            let s_new = self@;
            assert(s_new == s_old.push(copy));
            assert forall|i: int, j: int| 0 <= i < j < s_new.len() implies s_new[i].id
                < s_new[j].id by {
                if j < s_old.len() {
                    assert(s_new[i] == s_old[i] && s_new[j] == s_old[j]);
                } else {
                    assert(s_new[j] == copy);
                    assert(s_new[i] == s_old[i]);
                    assert(0 < s_old[i].id < old(self).spec_next_id());
                }
            }
            assert forall|i: int| 0 <= i < s_new.len() implies 0 < (#[trigger] s_new[i]).id
                < self.spec_next_id() by {
                if i < s_old.len() {
                    assert(s_new[i] == s_old[i]);
                    assert(0 < s_old[i].id < old(self).spec_next_id());
                } else {
                    assert(s_new[i] == copy);
                }
            }
            assert forall|i: int| 0 <= i < s_new.len() implies (#[trigger] s_new[i]).wf() by {
                if i < s_old.len() {
                    assert(s_new[i] == s_old[i]);
                }
            }
        }
        Ok(copy)
    }

    /// The status of the record with identifier `id`, or `None` when no such
    /// record exists.
    #[verifier::loop_isolation(false)]
    pub fn record_status(&self, id: i64) -> (r: Option<RunStatus>)
        ensures
            match r {
                Some(st) => exists|k: int|
                    0 <= k < self@.len() && (#[trigger] self@[k]).id == id && self@[k].status
                        == st,
                None => forall|k: int| 0 <= k < self@.len() ==> (#[trigger] self@[k]).id != id,
            },
    {
        let n = self.records.len();
        let mut i: usize = 0;
        while i < n
            invariant
                i <= n,
                n == self@.len(),
                forall|k: int| 0 <= k < i ==> (#[trigger] self@[k]).id != id,
            decreases n - i,
        {
            if self.records[i].id == id {
                return Some(self.records[i].status);
            }
            i = i + 1;
        }
        None
    }

    /// Finalize the record with identifier `id`: set its finished timestamp,
    /// exit code, output and terminal status. Fails, leaving the store
    /// unchanged, when the status is not terminal, the record does not exist,
    /// or the record is already terminal — so a record is finalized at most
    /// once and never re-opened.
    #[verifier::loop_isolation(false)]
    pub fn update_run_record(
        &mut self,
        id: i64,
        finished_at: &str,
        exit_code: Option<i32>,
        output: Option<&str>,
        status: RunStatus,
    ) -> (r: Result<(), EngineError>)
        requires
            old(self).wf(),
        ensures
            final(self).wf(),
            match r {
                Ok(()) => {
                    &&& status.is_terminal()
                    &&& final(self)@.len() == old(self)@.len()
                    &&& final(self).spec_next_id() == old(self).spec_next_id()
                    &&& exists|k: int|
                        0 <= k < old(self)@.len() && (#[trigger] old(self)@[k]).id == id
                            && old(self)@[k].status == RunStatus::Running
                    &&& forall|k: int|
                        0 <= k < old(self)@.len() && (#[trigger] old(self)@[k]).id != id
                            ==> final(self)@[k] == old(self)@[k]
                    &&& forall|k: int|
                        0 <= k < old(self)@.len() && (#[trigger] old(self)@[k]).id == id ==> {
                            &&& final(self)@[k].id == id
                            &&& final(self)@[k].script_id == old(self)@[k].script_id
                            &&& final(self)@[k].started_at == old(self)@[k].started_at
                            &&& final(self)@[k].status == status
                            &&& final(self)@[k].exit_code == exit_code
                            &&& (final(self)@[k].finished_at matches Some(f) && f@ == finished_at@)
                            &&& match output {
                                Some(s) => final(self)@[k].output matches Some(o) && o@ == s@,
                                None => final(self)@[k].output is None,
                            }
                        }
                },
                Err(e) => {
                    &&& *final(self) == *old(self)
                    &&& (e == EngineError::NotTerminalStatus || e == EngineError::NoSuchRecord
                        || e == EngineError::AlreadyFinalized)
                    &&& (e == EngineError::NotTerminalStatus <==> status == RunStatus::Running)
                    &&& (e == EngineError::NoSuchRecord <==> status != RunStatus::Running
                        && (forall|k: int|
                        0 <= k < old(self)@.len() ==> (#[trigger] old(self)@[k]).id != id))
                    &&& (e == EngineError::AlreadyFinalized <==> status != RunStatus::Running
                        && (exists|k: int|
                        0 <= k < old(self)@.len() && (#[trigger] old(self)@[k]).id == id
                            && old(self)@[k].status != RunStatus::Running))
                },
            },
    {
        if matches!(status, RunStatus::Running) {
            return Err(EngineError::NotTerminalStatus);
        }
        let n = self.records.len();
        let mut i: usize = 0;
        while i < n
            invariant
                i <= n,
                n == self@.len(),
                *self == *old(self),
                forall|k: int| 0 <= k < i ==> (#[trigger] self@[k]).id != id,
            decreases n - i,
        {
            if self.records[i].id == id {
                if !matches!(self.records[i].status, RunStatus::Running) {
                    return Err(EngineError::AlreadyFinalized);
                }
                proof {
                    assert forall|k: int|
                        0 <= k < old(self)@.len() && (#[trigger] old(self)@[k]).id
                            == id implies k == i as int by {
                        if k > i as int {
                            assert(old(self)@[i as int].id < old(self)@[k].id);
                        }
                    }
                }
                let old_rec = &self.records[i];
                let updated = RunRecord {
                    id: old_rec.id,
                    script_id: old_rec.script_id,
                    started_at: old_rec.started_at.clone(),
                    finished_at: Some(finished_at.to_owned()),
                    exit_code,
                    output: match output {
                        Some(s) => Some(s.to_owned()),
                        None => None,
                    },
                    status,
                };
                self.records.set(i, updated);
                proof {
                    let s_old = old(self)@;
                    let s_new = self@;
                    assert(s_new == s_old.update(i as int, updated));
                    assert forall|k: int| 0 <= k < s_new.len() && k != i as int implies s_new[k]
                        == s_old[k] by {}
                    assert(s_new[i as int] == updated);
                }
                return Ok(());
            }
            i = i + 1;
        }
        Err(EngineError::NoSuchRecord)
    }

    /// The most recent record for `script_id`, if any.
    #[verifier::loop_isolation(false)]
    pub fn get_latest_run(&self, script_id: i64) -> (r: Option<RunRecord>)
        ensures
            r == latest_record_for(self@, script_id),
    {
        let n = self.records.len();
        let mut i: usize = n;
        proof {
            assert(self@.take(n as int) =~= self@);
        }
        while i > 0
            invariant
                i <= n,
                n == self@.len(),
                latest_record_for(self@, script_id) == latest_record_for(
                    self@.take(i as int),
                    script_id,
                ),
            decreases i,
        {
            proof {
                assert(self@.take(i as int).drop_last() =~= self@.take(i as int - 1));
                assert(self@.take(i as int).last() == self@[i as int - 1]);
            }
            if self.records[i - 1].script_id == script_id {
                return Some(self.records[i - 1].clone());
            }
            i = i - 1;
        }
        proof {
            assert(self@.take(0) =~= Seq::<RunRecord>::empty());
        }
        None
    }

    /// The most recent records for `script_id`, newest first, at most
    /// `limit` of them.
    #[verifier::loop_isolation(false)]
    pub fn get_run_history(&self, script_id: i64, limit: i64) -> (r: Vec<RunRecord>)
        ensures
            r@ == recent_records_for(self@, script_id, limit as int),
    {
        let mut out: Vec<RunRecord> = Vec::new();
        let n = self.records.len();
        let mut i: usize = n;
        let mut remaining: i64 = limit;
        proof {
            assert(self@.take(n as int) =~= self@);
            assert(out@ + recent_records_for(self@, script_id, limit as int)
                =~= recent_records_for(self@, script_id, limit as int));
        }
        while i > 0 && remaining > 0
            invariant
                i <= n,
                n == self@.len(),
                remaining <= limit,
                recent_records_for(self@, script_id, limit as int) == out@ + recent_records_for(
                    self@.take(i as int),
                    script_id,
                    remaining as int,
                ),
            decreases i,
        {
            proof {
                assert(self@.take(i as int).drop_last() =~= self@.take(i as int - 1));
                assert(self@.take(i as int).last() == self@[i as int - 1]);
            }
            if self.records[i - 1].script_id == script_id {
                out.push(self.records[i - 1].clone());
                remaining = remaining - 1;
                proof {
                    assert(out@.drop_last() + (seq![self@[i as int - 1]] + recent_records_for(
                        self@.take(i as int - 1),
                        script_id,
                        remaining as int,
                    )) =~= out@ + recent_records_for(
                        self@.take(i as int - 1),
                        script_id,
                        remaining as int,
                    ));
                }
            }
            i = i - 1;
        }
        proof {
            if remaining <= 0 {
                assert(recent_records_for(self@.take(i as int), script_id, remaining as int)
                    =~= Seq::<RunRecord>::empty());
            } else {
                assert(self@.take(0) =~= Seq::<RunRecord>::empty());
            }
            assert(out@ + Seq::<RunRecord>::empty() =~= out@);
        }
        out
    }

    /// Remove every record for `script_id`.
    #[verifier::loop_isolation(false)]
    pub fn clear_run_history(&mut self, script_id: i64)
        requires
            old(self).wf(),
        ensures
            final(self).wf(),
            final(self)@ == without_script(old(self)@, script_id),
            final(self).spec_next_id() == old(self).spec_next_id(),
    {
        let n = self.records.len();
        let mut out: Vec<RunRecord> = Vec::new();
        let mut i: usize = 0;
        while i < n
            invariant
                i <= n,
                n == self@.len(),
                *self == *old(self),
                out@ == without_script(self@.take(i as int), script_id),
            decreases n - i,
        {
            proof {
                assert(self@.take(i as int + 1).drop_last() =~= self@.take(i as int));
                assert(self@.take(i as int + 1).last() == self@[i as int]);
            }
            if self.records[i].script_id != script_id {
                out.push(self.records[i].clone());
            }
            i = i + 1;
        }
        proof {
            assert(self@.take(n as int) =~= self@);
            lemma_without_script_wf(self@, script_id, self.spec_next_id());
        }
        self.records = out;
    }
}

/// The records of `s` that do not belong to `script_id`, in order.
pub open spec fn without_script(s: Seq<RunRecord>, script_id: i64) -> Seq<RunRecord>
    decreases s.len(),
{
    if s.len() == 0 {
        Seq::empty()
    } else if s.last().script_id == script_id {
        without_script(s.drop_last(), script_id)
    } else {
        without_script(s.drop_last(), script_id).push(s.last())
    }
}

/// Removing a script's records preserves the store's well-formedness:
/// the remaining records stay well formed, with positive, strictly
/// increasing identifiers below `bound`.
proof fn lemma_without_script_wf(s: Seq<RunRecord>, script_id: i64, bound: i64)
    requires
        forall|i: int| 0 <= i < s.len() ==> (#[trigger] s[i]).wf(),
        forall|i: int| 0 <= i < s.len() ==> 0 < (#[trigger] s[i]).id < bound,
        forall|i: int, j: int| 0 <= i < j < s.len() ==> s[i].id < s[j].id,
    ensures
        ({
            let r = without_script(s, script_id);
            &&& forall|i: int| 0 <= i < r.len() ==> (#[trigger] r[i]).wf()
            &&& forall|i: int| 0 <= i < r.len() ==> 0 < (#[trigger] r[i]).id < bound
            &&& forall|i: int, j: int| 0 <= i < j < r.len() ==> r[i].id < r[j].id
            &&& (r.len() > 0 && s.len() > 0 ==> r.last().id <= s.last().id)
        }),
    decreases s.len(),
{
    if s.len() > 0 {
        lemma_without_script_wf(s.drop_last(), script_id, bound);
    }
}

} // verus!
