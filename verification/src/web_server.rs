//! The dashboard state the network service reads and writes: the snapshot
//! every page is rendered from, the bounded ring of recent log lines, the
//! validated configuration update with its rollback, and the pagination of
//! historical log entries.
//!
//! The HTTP routes, sockets and the reader-writer lock around this state
//! live outside the library; every mutation is a single call here, so a
//! reader holding the lock sees either the whole old or the whole new
//! state, never a partial one.
use vstd::prelude::*;

verus! {

use crate::clock;
use crate::config::{Config, ValidationError};
use crate::strutil::{eq_ignore_ascii_case_seq, lex_lt, str_eq, str_eq_ignore_ascii_case, str_lt};

/// The configuration as the web API carries it; a mirror of [`Config`]
/// converted in both directions at the route boundary.
#[derive(Debug)]
pub struct WebConfig {
    pub temperature_threshold_tenths: i32,
    pub poll_interval_sec: u64,
    pub base_cooldown_sec: u64,
    pub enable_logging: bool,
    pub log_file_path: Option<String>,
}

impl core::convert::From<Config> for WebConfig {
    fn from(config: Config) -> (w: WebConfig) {
        WebConfig {
            temperature_threshold_tenths: config.temperature_threshold_tenths,
            poll_interval_sec: config.poll_interval_sec,
            base_cooldown_sec: config.base_cooldown_sec,
            enable_logging: config.enable_logging,
            log_file_path: config.log_file_path,
        }
    }
}

impl vstd::std_specs::convert::FromSpecImpl<Config> for WebConfig {
    open spec fn obeys_from_spec() -> bool {
        true
    }

    open spec fn from_spec(config: Config) -> WebConfig {
        WebConfig {
            temperature_threshold_tenths: config.temperature_threshold_tenths,
            poll_interval_sec: config.poll_interval_sec,
            base_cooldown_sec: config.base_cooldown_sec,
            enable_logging: config.enable_logging,
            log_file_path: config.log_file_path,
        }
    }
}

impl core::convert::From<WebConfig> for Config {
    fn from(web_config: WebConfig) -> (c: Config) {
        Config {
            temperature_threshold_tenths: web_config.temperature_threshold_tenths,
            poll_interval_sec: web_config.poll_interval_sec,
            base_cooldown_sec: web_config.base_cooldown_sec,
            enable_logging: web_config.enable_logging,
            log_file_path: web_config.log_file_path,
        }
    }
}

impl vstd::std_specs::convert::FromSpecImpl<WebConfig> for Config {
    open spec fn obeys_from_spec() -> bool {
        true
    }

    open spec fn from_spec(web_config: WebConfig) -> Config {
        Config {
            temperature_threshold_tenths: web_config.temperature_threshold_tenths,
            poll_interval_sec: web_config.poll_interval_sec,
            base_cooldown_sec: web_config.base_cooldown_sec,
            enable_logging: web_config.enable_logging,
            log_file_path: web_config.log_file_path,
        }
    }
}

/// The snapshot served to a status request.
#[derive(Debug)]
pub struct StatusResponse {
    pub temperature: Option<i32>,
    pub threshold: i32,
    pub monitoring_paused: bool,
    pub autostart_enabled: bool,
    pub uptime_seconds: u64,
    pub last_update: String,
    pub gpu_connection_status: String,
}

/// One line of the dashboard's bounded ring of recent log lines.
#[derive(Debug)]
pub struct LogEntry {
    pub timestamp: String,
    pub level: String,
    pub message: String,
}

impl Clone for LogEntry {
    /// An exact copy of the entry.
    fn clone(&self) -> (c: LogEntry)
        ensures
            c == *self,
    {
        LogEntry {
            timestamp: self.timestamp.clone(),
            level: self.level.clone(),
            message: self.message.clone(),
        }
    }
}

/// One historical log entry, as parsed from the on-disk log outside the
/// library; the context is carried as raw text.
#[derive(Debug)]
pub struct FullLogEntry {
    pub timestamp: String,
    pub level: String,
    pub message: String,
    pub correlation_id: Option<String>,
    pub context: Option<String>,
    pub module: Option<String>,
    pub thread_id: Option<String>,
    pub process_id: Option<u32>,
}

/// One page of historical log entries.
#[derive(Debug)]
pub struct PaginatedLogsResponse {
    pub logs: Vec<FullLogEntry>,
    pub has_more: bool,
    pub total_count: usize,
    pub oldest_timestamp: Option<String>,
}

/// The filters and the window a log page is requested with.
#[derive(Debug)]
pub struct LogsQuery {
    pub page: Option<usize>,
    pub limit: Option<usize>,
    pub before_timestamp: Option<String>,
    pub level_filter: Option<String>,
}

/// Capacity of the ring of recent log lines; the oldest line leaves first.
pub const MAX_RECENT_LOGS: usize = 100;

/// The fields of a ring entry match the given texts.
pub open spec fn log_entry_matches(
    e: LogEntry,
    timestamp: Seq<char>,
    level: Seq<char>,
    message: Seq<char>,
) -> bool {
    &&& e.timestamp@ == timestamp
    &&& e.level@ == level
    &&& e.message@ == message
}

/// Append to the bounded ring: push the entry and, past the capacity, evict
/// the oldest.
pub open spec fn spec_ring_push(logs: Seq<LogEntry>, e: LogEntry) -> Seq<LogEntry> {
    let pushed = logs.push(e);
    if pushed.len() > MAX_RECENT_LOGS {
        pushed.drop_first()
    } else {
        pushed
    }
}

/// The newest hundred entries of a sequence: what the ring retains after
/// any number of appends.
pub open spec fn spec_ring_tail(s: Seq<LogEntry>) -> Seq<LogEntry> {
    if s.len() > MAX_RECENT_LOGS {
        s.skip(s.len() - MAX_RECENT_LOGS)
    } else {
        s
    }
}

/// Appending to the retained ring keeps exactly the newest hundred of the
/// whole history.
pub proof fn lemma_ring_tail_push(s: Seq<LogEntry>, e: LogEntry)
    ensures
        spec_ring_push(spec_ring_tail(s), e) == spec_ring_tail(s.push(e)),
{
    if s.len() >= MAX_RECENT_LOGS {
        assert(spec_ring_tail(s).push(e).drop_first() =~= s.push(e).skip(
            s.push(e).len() - MAX_RECENT_LOGS,
        ));
    } else {
        assert(spec_ring_tail(s).push(e) =~= s.push(e));
    }
}

/// The single source of truth the dashboard, the sampling loop and the
/// network service observe.
#[derive(Debug)]
pub struct AppState {
    pub config: Config,
    pub current_temperature: Option<i32>,
    pub monitoring_paused: bool,
    pub autostart_enabled: bool,
    pub uptime_seconds: u64,
    pub recent_logs: Vec<LogEntry>,
    pub last_update: String,
    pub gpu_connection_status: String,
}

impl AppState {
    /// The dashboard's standing invariant: the ring of recent log lines
    /// never holds more than its capacity.
    pub open spec fn wf(self) -> bool {
        self.recent_logs@.len() <= MAX_RECENT_LOGS
    }

    /// Fresh dashboard state around a loaded configuration: no reading yet,
    /// monitoring running, empty log ring, connection status unknown.
    pub fn new(config: Config, autostart_enabled: bool) -> (state: AppState)
        ensures
            state.config == config,
            state.current_temperature is None,
            !state.monitoring_paused,
            state.autostart_enabled == autostart_enabled,
            state.uptime_seconds == 0,
            state.recent_logs@.len() == 0,
            state.gpu_connection_status@ == "Unknown"@,
            state.wf(),
    {
        AppState {
            config,
            current_temperature: None,
            monitoring_paused: false,
            autostart_enabled,
            uptime_seconds: 0,
            recent_logs: Vec::new(),
            last_update: clock::now_formatted(),
            gpu_connection_status: "Unknown".to_owned(),
        }
    }

    /// Append a line to the ring of recent log lines, evicting the oldest
    /// once the ring is full; nothing else changes.
    pub fn add_log_at(&mut self, timestamp: &str, level: &str, message: &str)
        ensures
            final(self).recent_logs@.len() >= 1,
            log_entry_matches(final(self).recent_logs@.last(), timestamp@, level@, message@),
            final(self).recent_logs@ == spec_ring_push(
                old(self).recent_logs@,
                final(self).recent_logs@.last(),
            ),
            *final(self) == (AppState { recent_logs: final(self).recent_logs, ..*old(self) }),
            old(self).wf() ==> final(self).wf(),
    {
        let entry = LogEntry {
            timestamp: timestamp.to_owned(),
            level: level.to_owned(),
            message: message.to_owned(),
        };
        self.recent_logs.push(entry);
        if self.recent_logs.len() > MAX_RECENT_LOGS {
            self.recent_logs.remove(0);
            proof {
                assert(self.recent_logs@ =~= old(self).recent_logs@.push(
                    self.recent_logs@.last(),
                ).drop_first());
            }
        }
    }

    /// Append a line stamped with the wall clock.
    pub fn add_log(&mut self, level: &str, message: &str)
        ensures
            final(self).recent_logs@.len() >= 1,
            final(self).recent_logs@.last().level@ == level@,
            final(self).recent_logs@.last().message@ == message@,
            final(self).recent_logs@ == spec_ring_push(
                old(self).recent_logs@,
                final(self).recent_logs@.last(),
            ),
            *final(self) == (AppState { recent_logs: final(self).recent_logs, ..*old(self) }),
    {
        let now = clock::now_formatted();
        self.add_log_at(now.as_str(), level, message);
    }

    /// Record the cycle's reading and the connection status in one step, so
    /// no observer sees the temperature of one cycle beside the status of
    /// another, stamped with the given instant.
    pub fn update_temperature_at(
        &mut self,
        temperature: Option<i32>,
        status: &str,
        now_text: &str,
    )
        ensures
            final(self).current_temperature == temperature,
            final(self).gpu_connection_status@ == status@,
            final(self).last_update@ == now_text@,
            *final(self) == (AppState {
                current_temperature: temperature,
                last_update: final(self).last_update,
                gpu_connection_status: final(self).gpu_connection_status,
                ..*old(self)
            }),
    {
        self.current_temperature = temperature;
        self.last_update = now_text.to_owned();
        self.gpu_connection_status = status.to_owned();
    }

    /// Record the cycle's reading and the connection status in one step,
    /// stamped with the wall clock.
    pub fn update_temperature(&mut self, temperature: Option<i32>, status: &str)
        ensures
            final(self).current_temperature == temperature,
            final(self).gpu_connection_status@ == status@,
            *final(self) == (AppState {
                current_temperature: temperature,
                last_update: final(self).last_update,
                gpu_connection_status: final(self).gpu_connection_status,
                ..*old(self)
            }),
    {
        let now = clock::now_formatted();
        self.update_temperature_at(temperature, status, now.as_str());
    }

    /// Commit a candidate configuration after validating its bounds. A
    /// rejected candidate leaves the stored configuration untouched and the
    /// error names the violated field; an accepted one replaces the whole
    /// configuration at once.
    ///
    /// Persisting the committed value happens outside the library; if that
    /// fails, the caller undoes the commit with [`AppState::rollback_config`].
    pub fn update_config(&mut self, candidate: Config) -> (r: Result<(), ValidationError>)
        ensures
            r is Ok <==> candidate.spec_valid(),
            r is Ok ==> *final(self) == (AppState { config: candidate, ..*old(self) }),
            r is Err ==> *final(self) == *old(self),
            r matches Err(e) ==> e == candidate.spec_validation_error(),
    {
        match candidate.validate() {
            Ok(()) => {
                self.config = candidate;
                Ok(())
            },
            Err(e) => Err(e),
        }
    }

    /// Restore the configuration held before a commit whose persistence
    /// failed, so memory and disk never diverge for longer than the one
    /// failed call.
    pub fn rollback_config(&mut self, previous: Config)
        ensures
            *final(self) == (AppState { config: previous, ..*old(self) }),
    {
        self.config = previous;
    }

    /// The snapshot a status request is answered with.
    pub fn status_response(&self) -> (status: StatusResponse)
        ensures
            status.temperature == self.current_temperature,
            status.threshold == self.config.temperature_threshold_tenths,
            status.monitoring_paused == self.monitoring_paused,
            status.autostart_enabled == self.autostart_enabled,
            status.uptime_seconds == self.uptime_seconds,
            status.last_update@ == self.last_update@,
            status.gpu_connection_status@ == self.gpu_connection_status@,
    {
        StatusResponse {
            temperature: self.current_temperature,
            threshold: self.config.temperature_threshold_tenths,
            monitoring_paused: self.monitoring_paused,
            autostart_enabled: self.autostart_enabled,
            uptime_seconds: self.uptime_seconds,
            last_update: self.last_update.clone(),
            gpu_connection_status: self.gpu_connection_status.clone(),
        }
    }
}

/// Insert an entry into a run sorted by descending timestamp, placing it
/// after every entry whose timestamp is not strictly older, so entries with
/// equal timestamps keep their original order.
pub open spec fn spec_insert_desc(s: Seq<FullLogEntry>, e: FullLogEntry) -> Seq<FullLogEntry>
    decreases s.len(),
{
    if s.len() == 0 {
        seq![e]
    } else if lex_lt(s.last().timestamp@, e.timestamp@) {
        spec_insert_desc(s.drop_last(), e).push(s.last())
    } else {
        s.push(e)
    }
}

/// Stable sort by descending timestamp, newest first: the order the log
/// pages are served in.
pub open spec fn spec_sort_desc(s: Seq<FullLogEntry>) -> Seq<FullLogEntry>
    decreases s.len(),
{
    if s.len() == 0 {
        s
    } else {
        spec_insert_desc(spec_sort_desc(s.drop_last()), s.last())
    }
}

/// The entries whose level matches the filter, ignoring ASCII case, in
/// their original order.
pub open spec fn spec_filter_level(s: Seq<FullLogEntry>, level: Seq<char>) -> Seq<FullLogEntry>
    decreases s.len(),
{
    if s.len() == 0 {
        s
    } else {
        let rest = spec_filter_level(s.drop_last(), level);
        if eq_ignore_ascii_case_seq(s.last().level@, level) {
            rest.push(s.last())
        } else {
            rest
        }
    }
}

/// The entries strictly older than the given timestamp, in their original
/// order.
pub open spec fn spec_filter_before(s: Seq<FullLogEntry>, before: Seq<char>) -> Seq<FullLogEntry>
    decreases s.len(),
{
    if s.len() == 0 {
        s
    } else {
        let rest = spec_filter_before(s.drop_last(), before);
        if lex_lt(s.last().timestamp@, before) {
            rest.push(s.last())
        } else {
            rest
        }
    }
}

/// The pool a page is cut from: all entries sorted newest first, narrowed
/// by the level filter and the before-timestamp filter when given.
pub open spec fn spec_log_pool(all: Seq<FullLogEntry>, query: LogsQuery) -> Seq<FullLogEntry> {
    let sorted = spec_sort_desc(all);
    let leveled = match query.level_filter {
        Option::None => sorted,
        Option::Some(l) => spec_filter_level(sorted, l@),
    };
    match query.before_timestamp {
        Option::None => leveled,
        Option::Some(t) => spec_filter_before(leveled, t@),
    }
}

/// Page size the query asks for: fifty entries unless given, never more
/// than two hundred.
pub open spec fn spec_page_limit(query: LogsQuery) -> int {
    vstd::math::min(
        match query.limit {
            Option::None => 50,
            Option::Some(l) => l as int,
        },
        200,
    )
}

/// Page index the query asks for, the first page unless given.
pub open spec fn spec_page_index(query: LogsQuery) -> int {
    match query.page {
        Option::None => 0,
        Option::Some(p) => p as int,
    }
}

/// Entries in non-increasing timestamp order: newest first, ties adjacent.
pub open spec fn spec_sorted_desc(s: Seq<FullLogEntry>) -> bool {
    forall|i: int, j: int|
        0 <= i < j < s.len() ==> !crate::strutil::lex_lt(s[i].timestamp@, s[j].timestamp@)
}

/// Inserting into a sorted run keeps it sorted, grows it by one, and adds
/// exactly the new entry to its contents.
proof fn lemma_insert_desc_props(s: Seq<FullLogEntry>, e: FullLogEntry)
    requires
        spec_sorted_desc(s),
    ensures
        spec_insert_desc(s, e).len() == s.len() + 1,
        spec_insert_desc(s, e).to_multiset() == s.push(e).to_multiset(),
        spec_sorted_desc(spec_insert_desc(s, e)),
        forall|i: int|
            0 <= i < spec_insert_desc(s, e).len() ==> (#[trigger] spec_insert_desc(s, e)[i] == e
                || s.contains(spec_insert_desc(s, e)[i])),
    decreases s.len(),
{
    broadcast use vstd::seq_lib::group_to_multiset_ensures;

    let r = spec_insert_desc(s, e);
    if s.len() == 0 {
        assert(r =~= s.push(e));
    } else if lex_lt(s.last().timestamp@, e.timestamp@) {
        let s0 = s.drop_last();
        assert(s0 == s.subrange(0, s.len() - 1));
        assert forall|i: int| 0 <= i < s0.len() implies s0[i] == s[i] by {
            assert(s.subrange(0, s.len() - 1)[i] == s[i]);
        };
        assert forall|i: int, j: int|
            0 <= i < j < s0.len() implies !lex_lt(s0[i].timestamp@, s0[j].timestamp@) by {
            assert(s0[i] == s[i]);
            assert(s0[j] == s[j]);
        };
        lemma_insert_desc_props(s0, e);
        let r0 = spec_insert_desc(s0, e);
        assert(r == r0.push(s.last()));

        assert forall|i: int, j: int|
            0 <= i < j < r.len() implies !lex_lt(r[i].timestamp@, r[j].timestamp@) by {
            assert(r[i] == r0[i]);
            if j < r0.len() {
                assert(r[j] == r0[j]);
                assert(!lex_lt(r0[i].timestamp@, r0[j].timestamp@));
            } else {
                assert(r[j] == s.last());
                if r0[i] == e {
                    crate::strutil::lemma_lex_lt_asymmetric(s.last().timestamp@, e.timestamp@);
                    assert(!lex_lt(e.timestamp@, s.last().timestamp@));
                } else {
                    let k = choose|k: int| 0 <= k < s0.len() && s0[k] == r0[i];
                    assert(s0[k] == s[k]);
                    assert(s.last() == s[s.len() - 1]);
                    assert(!lex_lt(s[k].timestamp@, s[s.len() - 1].timestamp@));
                }
            }
        };

        assert(s =~= s0.push(s.last()));
        assert(r.to_multiset() =~= s.push(e).to_multiset()) by {
            assert(r.to_multiset() == r0.to_multiset().insert(s.last()));
            assert(r0.to_multiset() == s0.to_multiset().insert(e));
            assert(s.push(e).to_multiset() == s0.to_multiset().insert(s.last()).insert(e));
            assert(s0.to_multiset().insert(e).insert(s.last()) =~= s0.to_multiset().insert(
                s.last(),
            ).insert(e));
        };

        assert forall|i: int| 0 <= i < r.len() implies (#[trigger] r[i] == e || s.contains(
            r[i],
        )) by {
            if i < r0.len() {
                assert(r[i] == r0[i]);
                if r0[i] != e {
                    let k = choose|k: int| 0 <= k < s0.len() && s0[k] == r0[i];
                    assert(s0[k] == s[k]);
                    assert(s[k] == r[i]);
                }
            } else {
                assert(r[i] == s.last());
                assert(s[s.len() - 1] == s.last());
            }
        };
    } else {
        assert(r == s.push(e));
        assert forall|i: int, j: int|
            0 <= i < j < r.len() implies !lex_lt(r[i].timestamp@, r[j].timestamp@) by {
            assert(r[i] == s[i]);
            if j < s.len() {
                assert(r[j] == s[j]);
                assert(!lex_lt(s[i].timestamp@, s[j].timestamp@));
            } else {
                assert(r[j] == e);
                assert(s.last() == s[s.len() - 1]);
                if i < s.len() - 1 {
                    assert(!lex_lt(s[i].timestamp@, s.last().timestamp@));
                } else {
                    assert(s[i] == s.last());
                    crate::strutil::lemma_lex_lt_asymmetric(
                        s.last().timestamp@,
                        s.last().timestamp@,
                    );
                }
                crate::strutil::lemma_lex_ge_transitive(
                    s[i].timestamp@,
                    s.last().timestamp@,
                    e.timestamp@,
                );
                assert(!lex_lt(s[i].timestamp@, e.timestamp@));
            }
        };
    }
}

/// The pagination's sort really sorts: the result carries exactly the
/// input's entries, as a multiset, in non-increasing timestamp order.
pub proof fn lemma_sort_desc_sorted(s: Seq<FullLogEntry>)
    ensures
        spec_sorted_desc(spec_sort_desc(s)),
        spec_sort_desc(s).to_multiset() == s.to_multiset(),
        spec_sort_desc(s).len() == s.len(),
    decreases s.len(),
{
    broadcast use vstd::seq_lib::group_to_multiset_ensures;

    if s.len() > 0 {
        let s0 = s.drop_last();
        lemma_sort_desc_sorted(s0);
        lemma_insert_desc_props(spec_sort_desc(s0), s.last());
        assert(s =~= s0.push(s.last()));
        assert(spec_sort_desc(s).to_multiset() =~= s.to_multiset()) by {
            assert(spec_sort_desc(s).to_multiset() == spec_sort_desc(s0).push(
                s.last(),
            ).to_multiset());
            assert(spec_sort_desc(s0).push(s.last()).to_multiset() == spec_sort_desc(
                s0,
            ).to_multiset().insert(s.last()));
            assert(s.to_multiset() == s0.to_multiset().insert(s.last()));
        };
    }
}

impl Clone for FullLogEntry {
    /// An exact copy of the entry.
    fn clone(&self) -> (c: FullLogEntry)
        ensures
            c == *self,
    {
        FullLogEntry {
            timestamp: self.timestamp.clone(),
            level: self.level.clone(),
            message: self.message.clone(),
            correlation_id: match &self.correlation_id {
                None => None,
                Some(s) => Some(s.clone()),
            },
            context: match &self.context {
                None => None,
                Some(s) => Some(s.clone()),
            },
            module: match &self.module {
                None => None,
                Some(s) => Some(s.clone()),
            },
            thread_id: match &self.thread_id {
                None => None,
                Some(s) => Some(s.clone()),
            },
            process_id: self.process_id,
        }
    }
}

/// Insert one entry into a run already sorted newest first.
fn insert_desc(v: Vec<FullLogEntry>, e: FullLogEntry) -> (r: Vec<FullLogEntry>)
    ensures
        r@ == spec_insert_desc(v@, e),
    decreases v@.len(),
{
    let mut v = v;
    if v.len() == 0 {
        v.push(e);
        proof {
            assert(v@ =~= seq![e]);
        }
        return v;
    }
    let last = v.pop().unwrap();
    if str_lt(last.timestamp.as_str(), e.timestamp.as_str()) {
        let mut r = insert_desc(v, e);
        r.push(last);
        r
    } else {
        v.push(last);
        v.push(e);
        v
    }
}

/// Sort the entries newest first; entries with equal timestamps keep their
/// original order.
fn sort_logs_desc(v: Vec<FullLogEntry>) -> (r: Vec<FullLogEntry>)
    ensures
        r@ == spec_sort_desc(v@),
    decreases v@.len(),
{
    let mut v = v;
    if v.len() == 0 {
        return v;
    }
    let last = v.pop().unwrap();
    let sorted = sort_logs_desc(v);
    insert_desc(sorted, last)
}

/// Keep the entries whose level matches the filter, ignoring ASCII case.
fn filter_by_level(v: Vec<FullLogEntry>, level: &str) -> (r: Vec<FullLogEntry>)
    ensures
        r@ == spec_filter_level(v@, level@),
    decreases v@.len(),
{
    let mut v = v;
    if v.len() == 0 {
        return v;
    }
    let last = v.pop().unwrap();
    let mut r = filter_by_level(v, level);
    if str_eq_ignore_ascii_case(last.level.as_str(), level) {
        r.push(last);
    }
    r
}

/// Keep the entries strictly older than the given timestamp.
fn filter_before(v: Vec<FullLogEntry>, before: &str) -> (r: Vec<FullLogEntry>)
    ensures
        r@ == spec_filter_before(v@, before@),
    decreases v@.len(),
{
    let mut v = v;
    if v.len() == 0 {
        return v;
    }
    let last = v.pop().unwrap();
    let mut r = filter_before(v, before);
    if str_lt(last.timestamp.as_str(), before) {
        r.push(last);
    }
    r
}

/// Copy one page out of the pool.
fn slice_logs(v: &Vec<FullLogEntry>, start: usize, end: usize) -> (r: Vec<FullLogEntry>)
    requires
        start <= end <= v@.len(),
    ensures
        r@ == v@.subrange(start as int, end as int),
{
    let mut r: Vec<FullLogEntry> = Vec::new();
    let mut i: usize = start;
    proof {
        assert(r@ =~= v@.subrange(start as int, start as int));
    }
    while i < end
        invariant
            start <= i <= end <= v@.len(),
            r@ == v@.subrange(start as int, i as int),
        decreases end - i,
    {
        r.push(v[i].clone());
        proof {
            assert(r@ =~= v@.subrange(start as int, i + 1));
        }
        i = i + 1;
    }
    r
}

impl AppState {
    /// Serve one page of historical log entries: sort every entry newest
    /// first, apply the query's filters, and cut the requested window. The
    /// response carries the size of the whole filtered pool, whether more
    /// pages follow, and the timestamp of the oldest entry served.
    ///
    /// Reading and parsing the log files themselves happens outside the
    /// library; this takes the parsed entries as they come.
    pub fn read_paginated_logs(all_logs: Vec<FullLogEntry>, query: &LogsQuery) -> (r:
        PaginatedLogsResponse)
        ensures
            ({
                let pool = spec_log_pool(all_logs@, *query);
                let limit = spec_page_limit(*query);
                let start = spec_page_index(*query) * limit;
                let end = vstd::math::min(start + limit, pool.len() as int);
                &&& r.total_count == pool.len()
                &&& r.logs@ == (if start < pool.len() as int {
                    pool.subrange(start, end)
                } else {
                    Seq::<FullLogEntry>::empty()
                })
                &&& r.has_more == (end < pool.len() as int)
                &&& (r.logs@.len() == 0 ==> r.oldest_timestamp is None)
                &&& (r.logs@.len() > 0 ==> (r.oldest_timestamp matches Some(t) && t@
                    == r.logs@.last().timestamp@))
            }),
    {
        let limit_raw: usize = match query.limit {
            Some(l) => l,
            None => 50,
        };
        let limit: usize = if limit_raw > 200 {
            200
        } else {
            limit_raw
        };
        let page: usize = match query.page {
            Some(p) => p,
            None => 0,
        };

        let mut pool = sort_logs_desc(all_logs);
        pool = match &query.level_filter {
            Some(l) => filter_by_level(pool, l.as_str()),
            None => pool,
        };
        pool = match &query.before_timestamp {
            Some(t) => filter_before(pool, t.as_str()),
            None => pool,
        };

        let total_count = pool.len();
        let mut logs: Vec<FullLogEntry> = Vec::new();
        let mut end: usize = total_count;
        match page.checked_mul(limit) {
            Some(start) => {
                if start < total_count {
                    end = if limit < total_count - start {
                        start + limit
                    } else {
                        total_count
                    };
                    logs = slice_logs(&pool, start, end);
                }
            },
            None => {},
        }
        let has_more = end < total_count;
        let oldest_timestamp = if logs.len() > 0 {
            Some(logs[logs.len() - 1].timestamp.clone())
        } else {
            None
        };
        PaginatedLogsResponse { logs, has_more, total_count, oldest_timestamp }
    }
}

/// What an action request asks the service to do.
#[derive(Debug, Clone, Copy, PartialEq, Eq, Structural)]
pub enum WebAction {
    EnableAutostart,
    DisableAutostart,
    Unknown,
}

/// The decision for an action request: toggling autostart flips whichever
/// state it is currently in; any other action is unknown.
pub open spec fn spec_web_action(action: Seq<char>, autostart_installed: bool) -> WebAction {
    if action == "toggle_autostart"@ {
        if autostart_installed {
            WebAction::DisableAutostart
        } else {
            WebAction::EnableAutostart
        }
    } else {
        WebAction::Unknown
    }
}

/// Decide what an action request means given the current autostart state.
pub fn decide_action(action: &str, autostart_installed: bool) -> (decision: WebAction)
    ensures
        decision == spec_web_action(action@, autostart_installed),
{
    if str_eq(action, "toggle_autostart") {
        if autostart_installed {
            WebAction::DisableAutostart
        } else {
            WebAction::EnableAutostart
        }
    } else {
        WebAction::Unknown
    }
}

} // verus!
