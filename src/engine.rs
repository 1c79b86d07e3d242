//! The synchronization engine: the owner of the continuation token and of
//! the in-memory snapshot, and the decisions of read and write round trips.
//!
//! The engine performs no I/O. The caller asks it what to send, performs the
//! round trip, and hands back what happened as a `Transfer`; the engine then
//! updates its state and says what the caller gets. A round trip that fails
//! (no response, a status outside 2xx, a body of the wrong shape) leaves the
//! engine exactly as it was.
use crate::cache::{expired, is_expired_at, Cache, CacheData, FRESHNESS_WINDOW_SECS};
use crate::commands::Command;
use crate::error::TodoError;
use crate::text::texts;
use crate::sync_models::{
    listed, projects_adapted, tasks_adapted, IdMapping, StatusEntry, StatusValue,
    SyncReadResponse, SyncWriteResponse, WireReadResponse,
};
use vstd::prelude::*;
use vstd::string::StringExecFns;

verus! {

/// What one round trip produced.
pub enum Transfer<T> {
    /// No response arrived (connection, TLS, timeout); the transport's message.
    Failed(String),
    /// A response arrived: its status, its raw body, and the body read into
    /// the expected shape or the reader's message.
    Answered { status: u16, body: String, parsed: std::result::Result<T, String> },
}

/// Statuses that count as success; any other is an error whatever the body.
pub open spec fn success_status(status: u16) -> bool {
    200 <= status <= 299
}

/// What became of one operation of a batch.
#[derive(Debug)]
pub enum OpOutcome {
    /// The server applied it; a creation carries the real identifier that
    /// its placeholder maps to, when the server gave a non-empty one.
    Applied { real_id: Option<String> },
    /// The server reported a failure, with its reason.
    Failed { reason: String },
    /// The server reported nothing for it.
    Unknown,
}

/// A failed operation: its correlation identifier and the server's reason.
#[derive(Debug)]
pub struct OperationFailure {
    pub uuid: String,
    pub reason: String,
}

/// The success marker is the bare string `ok`.
pub open spec fn is_ok_marker(v: StatusValue) -> bool {
    v matches StatusValue::Text(t) && t@ == "ok"@
}

/// The reason a failure reports: its text, or the JSON text of its payload.
pub open spec fn reason_of(v: StatusValue) -> String {
    match v {
        StatusValue::Text(t) => t,
        StatusValue::Other(j) => j,
    }
}

/// The status reported for correlation identifier `uuid`: its first entry.
pub open spec fn status_for(entries: Seq<StatusEntry>, uuid: Seq<char>) -> Option<StatusValue>
    decreases entries.len(),
{
    if entries.len() == 0 {
        None
    } else if entries[0].uuid@ == uuid {
        Some(entries[0].status)
    } else {
        status_for(entries.drop_first(), uuid)
    }
}

/// The real identifier mapped to placeholder `temp_id`: its first entry.
pub open spec fn real_id_for(entries: Seq<IdMapping>, temp_id: Seq<char>) -> Option<String>
    decreases entries.len(),
{
    if entries.len() == 0 {
        None
    } else if entries[0].temp_id@ == temp_id {
        Some(entries[0].real_id)
    } else {
        real_id_for(entries.drop_first(), temp_id)
    }
}

/// A real identifier counts only when it is not empty.
pub open spec fn non_empty(o: Option<String>) -> Option<String> {
    match o {
        Some(s) => if s@.len() > 0 {
            Some(s)
        } else {
            None
        },
        None => None,
    }
}

/// What became of envelope `c`, by response `w`.
pub open spec fn outcome_for(c: Command, w: SyncWriteResponse) -> OpOutcome {
    match status_for(w.sync_status@, c.uuid@) {
        None => OpOutcome::Unknown,
        Some(v) => if is_ok_marker(v) {
            OpOutcome::Applied {
                real_id: match c.temp_id {
                    Some(t) => non_empty(real_id_for(w.temp_id_mapping@, t@)),
                    None => None,
                },
            }
        } else {
            OpOutcome::Failed { reason: reason_of(v) }
        },
    }
}

/// The outcome of each envelope, in submission order.
pub open spec fn outcomes_for(cs: Seq<Command>, w: SyncWriteResponse) -> Seq<OpOutcome> {
    cs.map_values(|c: Command| outcome_for(c, w))
}

/// The correlation identifiers of the envelopes the response says nothing of.
pub open spec fn unknown_ids(cs: Seq<Command>, w: SyncWriteResponse) -> Seq<Seq<char>>
    decreases cs.len(),
{
    if cs.len() == 0 {
        Seq::empty()
    } else {
        let rest = unknown_ids(cs.drop_last(), w);
        if outcome_for(cs.last(), w) is Unknown {
            rest.push(cs.last().uuid@)
        } else {
            rest
        }
    }
}

/// The correlation identifier and reason of each failed envelope.
pub open spec fn failed_ops(cs: Seq<Command>, w: SyncWriteResponse) -> Seq<(Seq<char>, Seq<char>)>
    decreases cs.len(),
{
    if cs.len() == 0 {
        Seq::empty()
    } else {
        let rest = failed_ops(cs.drop_last(), w);
        match outcome_for(cs.last(), w) {
            OpOutcome::Failed { reason } => rest.push((cs.last().uuid@, reason@)),
            _ => rest,
        }
    }
}

/// The placeholders of applied creations that received no real identifier.
pub open spec fn unresolved_ids(cs: Seq<Command>, w: SyncWriteResponse) -> Seq<Seq<char>>
    decreases cs.len(),
{
    if cs.len() == 0 {
        Seq::empty()
    } else {
        let rest = unresolved_ids(cs.drop_last(), w);
        match (outcome_for(cs.last(), w), cs.last().temp_id) {
            (OpOutcome::Applied { real_id: None }, Some(t)) => rest.push(t@),
            _ => rest,
        }
    }
}

/// The batch succeeded as a whole: every envelope was reported, none
/// failed, and every creation received a real identifier.
pub open spec fn batch_succeeds(cs: Seq<Command>, w: SyncWriteResponse) -> bool {
    &&& unknown_ids(cs, w).len() == 0
    &&& failed_ops(cs, w).len() == 0
    &&& unresolved_ids(cs, w).len() == 0
}

pub open spec fn failure_texts(v: Seq<OperationFailure>) -> Seq<(Seq<char>, Seq<char>)> {
    v.map_values(|f: OperationFailure| (f.uuid@, f.reason@))
}

/// What a write round trip whose response was read reports: an unknown
/// outcome first, then failures, then unresolved placeholders, and success
/// only when there is none of them. Every error carries all outcomes.
pub open spec fn batch_reported(
    cs: Seq<Command>,
    w: SyncWriteResponse,
    r: std::result::Result<Vec<OpOutcome>, TodoError>,
) -> bool {
    if unknown_ids(cs, w).len() > 0 {
        r matches Err(TodoError::AmbiguousOutcome { missing, outcomes })
            && texts(missing@) == unknown_ids(cs, w) && outcomes@ == outcomes_for(cs, w)
    } else if failed_ops(cs, w).len() > 0 {
        r matches Err(TodoError::OperationsFailed { failures, outcomes })
            && failure_texts(failures@) == failed_ops(cs, w) && outcomes@ == outcomes_for(cs, w)
    } else if unresolved_ids(cs, w).len() > 0 {
        r matches Err(TodoError::MissingRealId { temp_ids, outcomes })
            && texts(temp_ids@) == unresolved_ids(cs, w) && outcomes@ == outcomes_for(cs, w)
    } else {
        r matches Ok(outcomes) && outcomes@ == outcomes_for(cs, w)
    }
}

impl CacheData {
    /// The snapshot data holds what a read response brought, adapted.
    pub open spec fn adapted_from(self, w: WireReadResponse) -> bool {
        &&& projects_adapted(self.projects@, listed(w.projects))
        &&& tasks_adapted(self.items@, listed(w.items))
        &&& self.sections@ == listed(w.sections)
        &&& self.labels@ == listed(w.labels)
        &&& self.filters@ == listed(w.filters)
    }
}

fn find_status(entries: &Vec<StatusEntry>, uuid: &String) -> (r: Option<usize>)
    ensures
        match r {
            Some(i) => i < entries@.len() && status_for(entries@, uuid@) == Some(
                entries@[i as int].status,
            ),
            None => status_for(entries@, uuid@) is None,
        },
{
    let mut i: usize = 0;
    assert(entries@.skip(0) =~= entries@);
    while i < entries.len()
        invariant
            i <= entries@.len(),
            status_for(entries@, uuid@) == status_for(entries@.skip(i as int), uuid@),
        decreases entries@.len() - i,
    {
        assert(entries@.skip(i as int).drop_first() =~= entries@.skip(i as int + 1));
        if entries[i].uuid == *uuid {
            return Some(i);
        }
        i += 1;
    }
    None
}

fn find_real_id(entries: &Vec<IdMapping>, temp_id: &String) -> (r: Option<usize>)
    ensures
        match r {
            Some(i) => i < entries@.len() && real_id_for(entries@, temp_id@) == Some(
                entries@[i as int].real_id,
            ),
            None => real_id_for(entries@, temp_id@) is None,
        },
{
    let mut i: usize = 0;
    assert(entries@.skip(0) =~= entries@);
    while i < entries.len()
        invariant
            i <= entries@.len(),
            real_id_for(entries@, temp_id@) == real_id_for(entries@.skip(i as int), temp_id@),
        decreases entries@.len() - i,
    {
        assert(entries@.skip(i as int).drop_first() =~= entries@.skip(i as int + 1));
        if entries[i].temp_id == *temp_id {
            return Some(i);
        }
        i += 1;
    }
    None
}

fn outcome_of(c: &Command, w: &SyncWriteResponse) -> (r: OpOutcome)
    ensures
        r == outcome_for(*c, *w),
{
    match find_status(&w.sync_status, &c.uuid) {
        None => OpOutcome::Unknown,
        Some(i) => {
            let ok_marker = String::from_str("ok");
            match &w.sync_status[i].status {
                StatusValue::Text(t) => {
                    if *t == ok_marker {
                        let real_id = match &c.temp_id {
                            Some(t) => match find_real_id(&w.temp_id_mapping, t) {
                                Some(j) => {
                                    let s = w.temp_id_mapping[j].real_id.clone();
                                    if s.as_str().is_empty() {
                                        None
                                    } else {
                                        Some(s)
                                    }
                                },
                                None => None,
                            },
                            None => None,
                        };
                        OpOutcome::Applied { real_id }
                    } else {
                        OpOutcome::Failed { reason: t.clone() }
                    }
                },
                StatusValue::Other(j) => OpOutcome::Failed { reason: j.clone() },
            }
        },
    }
}

/// The owner of the continuation token and of the in-memory snapshot.
pub struct SyncEngine {
    sync_token: Option<String>,
    cache: Option<Cache>,
}

impl SyncEngine {
    /// The continuation token; `None` until a round trip brings one.
    pub closed spec fn token(&self) -> Option<String> {
        self.sync_token
    }

    /// The in-memory snapshot.
    pub closed spec fn snapshot(&self) -> Option<Cache> {
        self.cache
    }

    /// The token a request carries: the current one, or `*` (fetch
    /// everything) while there is none.
    pub open spec fn request_token_spec(&self) -> Seq<char> {
        match self.token() {
            Some(t) => t@,
            None => "*"@,
        }
    }

    /// A read must go to the network: there is no snapshot, or it is older
    /// than the freshness window, or no token is known yet.
    pub open spec fn must_fetch_spec(&self, now: i64) -> bool {
        match self.snapshot() {
            None => true,
            Some(c) => expired(c.cached_at, FRESHNESS_WINDOW_SECS, now) || self.token() is None,
        }
    }

    pub fn new() -> (r: SyncEngine)
        ensures
            r.token() is None,
            r.snapshot() is None,
    {
        SyncEngine { sync_token: None, cache: None }
    }

    pub fn get_sync_token(&self) -> (r: Option<String>)
        ensures
            r == self.token(),
    {
        match &self.sync_token {
            Some(t) => Some(t.clone()),
            None => None,
        }
    }

    /// Continues from a token known from elsewhere.
    pub fn set_sync_token(&mut self, token: String)
        ensures
            final(self).token() == Some(token),
            final(self).snapshot() == old(self).snapshot(),
    {
        self.sync_token = Some(token);
    }

    /// Forgets the token and the snapshot: the next read fetches everything.
    pub fn reset(&mut self)
        ensures
            final(self).token() is None,
            final(self).snapshot() is None,
    {
        self.sync_token = None;
        self.cache = None;
    }

    pub fn request_token(&self) -> (r: String)
        ensures
            r@ == self.request_token_spec(),
    {
        match &self.sync_token {
            Some(t) => t.clone(),
            None => String::from_str("*"),
        }
    }

    pub fn snapshot_ref(&self) -> (r: Option<&Cache>)
        ensures
            match r {
                Some(c) => self.snapshot() == Some(*c),
                None => self.snapshot() is None,
            },
    {
        match &self.cache {
            Some(c) => Some(c),
            None => None,
        }
    }

    /// Whether the persisted snapshot should be loaded: none is in memory.
    pub fn needs_disk_cache(&self) -> (r: bool)
        ensures
            r == self.snapshot() is None,
    {
        self.cache.is_none()
    }

    /// Takes a persisted snapshot as the starting state when none is in
    /// memory. Its token is adopted only while no token is known, so a
    /// token never goes back to an older one.
    pub fn adopt_cache(&mut self, loaded: Option<Cache>)
        ensures
            match (old(self).snapshot(), loaded) {
                (None, Some(c)) => {
                    &&& final(self).snapshot() == Some(c)
                    &&& final(self).token() == match old(self).token() {
                        Some(t) => Some(t),
                        None => Some(c.sync_token),
                    }
                },
                _ => *final(self) == *old(self),
            },
    {
        if self.cache.is_none() {
            match loaded {
                Some(c) => {
                    if self.sync_token.is_none() {
                        self.sync_token = Some(c.sync_token.clone());
                    }
                    self.cache = Some(c);
                },
                None => {},
            }
        }
    }

    /// Whether a read at `now` must go to the network rather than use the
    /// snapshot.
    pub fn must_fetch(&self, now: i64) -> (r: bool)
        ensures
            r == self.must_fetch_spec(now),
    {
        match &self.cache {
            None => true,
            Some(c) => is_expired_at(c.cached_at, FRESHNESS_WINDOW_SECS, now)
                || self.sync_token.is_none(),
        }
    }

    /// Takes the result of a read round trip made at `now`. On success the
    /// token becomes the response's and the snapshot is replaced wholesale
    /// by the adapted response, to be persisted by the caller. On any
    /// failure nothing changes.
    pub fn finish_read(&mut self, t: Transfer<WireReadResponse>, now: i64) -> (r: std::result::Result<(), TodoError>)
        ensures
            match t {
                Transfer::Failed(m) => r == Err::<(), TodoError>(TodoError::Request(m))
                    && *final(self) == *old(self),
                Transfer::Answered { status, body, parsed } => if !success_status(status) {
                    r == Err::<(), TodoError>(TodoError::Http { status, body })
                        && *final(self) == *old(self)
                } else {
                    match parsed {
                        Err(m) => r == Err::<(), TodoError>(TodoError::Malformed(m))
                            && *final(self) == *old(self),
                        Ok(w) => {
                            &&& r is Ok
                            &&& final(self).token() == Some(w.sync_token)
                            &&& final(self).snapshot() matches Some(c) && c.sync_token
                                == w.sync_token && c.cached_at == now && c.data.adapted_from(w)
                        },
                    }
                },
            },
    {
        match t {
            Transfer::Failed(m) => Err(TodoError::Request(m)),
            Transfer::Answered { status, body, parsed } => {
                if !(200 <= status && status <= 299) {
                    return Err(TodoError::Http { status, body });
                }
                match parsed {
                    Err(m) => Err(TodoError::Malformed(m)),
                    Ok(w) => {
                        let resp = SyncReadResponse::from_wire(w);
                        let token = resp.sync_token.clone();
                        let data = CacheData {
                            projects: resp.projects,
                            items: resp.items,
                            sections: resp.sections,
                            labels: resp.labels,
                            filters: resp.filters,
                        };
                        self.cache = Some(Cache { sync_token: resp.sync_token, cached_at: now, data });
                        self.sync_token = Some(token);
                        Ok(())
                    },
                }
            },
        }
    }

    /// Takes the result of submitting `commands` as one batch. Once the
    /// response is read the token becomes the response's, whatever the
    /// outcomes of the operations; the snapshot is kept. On a failed round
    /// trip nothing changes.
    pub fn finish_write(&mut self, commands: &Vec<Command>, t: Transfer<SyncWriteResponse>) -> (r:
        std::result::Result<Vec<OpOutcome>, TodoError>)
        ensures
            match t {
                Transfer::Failed(m) => r == Err::<Vec<OpOutcome>, TodoError>(TodoError::Request(m))
                    && *final(self) == *old(self),
                Transfer::Answered { status, body, parsed } => if !success_status(status) {
                    r == Err::<Vec<OpOutcome>, TodoError>(TodoError::Http { status, body })
                        && *final(self) == *old(self)
                } else {
                    match parsed {
                        Err(m) => r == Err::<Vec<OpOutcome>, TodoError>(TodoError::Malformed(m))
                            && *final(self) == *old(self),
                        Ok(w) => {
                            &&& final(self).token() == Some(w.sync_token)
                            &&& final(self).snapshot() == old(self).snapshot()
                            &&& batch_reported(commands@, w, r)
                        },
                    }
                },
            },
    {
        let w = match t {
            Transfer::Failed(m) => { return Err(TodoError::Request(m)); },
            Transfer::Answered { status, body, parsed } => {
                if !(200 <= status && status <= 299) {
                    return Err(TodoError::Http { status, body });
                }
                match parsed {
                    Err(m) => { return Err(TodoError::Malformed(m)); },
                    Ok(w) => w,
                }
            },
        };
        let ghost cs = commands@;
        let mut outcomes: Vec<OpOutcome> = Vec::new();
        let mut missing: Vec<String> = Vec::new();
        let mut failures: Vec<OperationFailure> = Vec::new();
        let mut unresolved: Vec<String> = Vec::new();
        let mut i: usize = 0;
        while i < commands.len()
            invariant
                i <= cs.len(),
                cs == commands@,
                outcomes@ == outcomes_for(cs.take(i as int), w),
                texts(missing@) == unknown_ids(cs.take(i as int), w),
                failure_texts(failures@) == failed_ops(cs.take(i as int), w),
                texts(unresolved@) == unresolved_ids(cs.take(i as int), w),
            decreases cs.len() - i,
        {
            let c = &commands[i];
            let o = outcome_of(c, &w);
            proof {
                assert(cs.take(i + 1).drop_last() =~= cs.take(i as int));
                assert(cs.take(i + 1).last() == cs[i as int]);
            }
            match &o {
                OpOutcome::Unknown => {
                    missing.push(c.uuid.clone());
                    assert(texts(missing@) =~= unknown_ids(cs.take(i + 1), w));
                },
                OpOutcome::Failed { reason } => {
                    failures.push(OperationFailure { uuid: c.uuid.clone(), reason: reason.clone() });
                    assert(failure_texts(failures@) =~= failed_ops(cs.take(i + 1), w));
                },
                OpOutcome::Applied { real_id } => {
                    if real_id.is_none() {
                        match &c.temp_id {
                            Some(t) => {
                                unresolved.push(t.clone());
                                assert(texts(unresolved@) =~= unresolved_ids(cs.take(i + 1), w));
                            },
                            None => {},
                        }
                    }
                },
            }
            outcomes.push(o);
            assert(outcomes@ =~= outcomes_for(cs.take(i + 1), w));
            i += 1;
        }
        assert(cs.take(i as int) =~= cs);
        self.sync_token = Some(w.sync_token);
        if missing.len() > 0 {
            Err(TodoError::AmbiguousOutcome { missing, outcomes })
        } else if failures.len() > 0 {
            Err(TodoError::OperationsFailed { failures, outcomes })
        } else if unresolved.len() > 0 {
            Err(TodoError::MissingRealId { temp_ids: unresolved, outcomes })
        } else {
            Ok(outcomes)
        }
    }
}

} // verus!
