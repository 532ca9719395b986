//! In-memory registry behind the analytics service.
//!
//! Holds the pipeline records and the bounded event buffer that the
//! service's HTTP layer exposes.  Identifiers are freshly generated UUID
//! strings; time and transport stay with the caller, which hands plain
//! timestamps in.

use vstd::prelude::*;
use vstd::std_specs::vec::vec_index_mut;

verus! {

/// The event buffer never holds more than this many events.
pub const EVENT_BUFFER_CAP: usize = 10000;

/// How many oldest events are dropped when the buffer overflows.
pub const EVENT_BUFFER_DRAIN: usize = 1000;

/// Processing state of a pipeline.
#[derive(Debug, Clone, Copy, PartialEq, Eq, Structural)]
pub enum PipelineStatus {
    Created,
    Running,
    Paused,
    Error,
    Stopped,
}

/// Aggregation applied by an aggregating transformation.
#[derive(Debug, Clone)]
pub enum AggregateFunction {
    Count,
    Sum { field: String },
    Avg { field: String },
    Min { field: String },
    Max { field: String },
    Distinct { field: String },
}

/// The transformation a pipeline applies to its stream.
#[derive(Debug, Clone)]
pub enum TransformationType {
    Filter { field: String, operator: String, value: String },
    Remap { mapping: Vec<(String, String)> },
    Aggregate { window_seconds: u64, function: AggregateFunction },
    Enrich { lookup_table: String },
}

/// One registered pipeline.
#[derive(Debug, Clone)]
pub struct Pipeline {
    pub id: String,
    pub name: String,
    pub source_topic: String,
    pub sink_topic: Option<String>,
    pub transformation: TransformationType,
    pub status: PipelineStatus,
    pub created_at: i64,
    pub events_processed: u64,
}

/// One buffered event.
#[derive(Debug, Clone)]
pub struct Event {
    pub id: String,
    pub event_type: String,
    pub source: String,
    pub timestamp: i64,
    pub data: String,
}

/// An event as submitted for ingestion, before an id and a timestamp are
/// assigned.
#[derive(Debug, Clone)]
pub struct EventInput {
    pub event_type: String,
    pub source: String,
    pub data: String,
}

/// A request to register a pipeline.
#[derive(Debug, Clone)]
pub struct CreatePipelineRequest {
    pub name: String,
    pub source_topic: String,
    pub sink_topic: Option<String>,
    pub transformation: TransformationType,
}

/// A batch of events submitted for ingestion.
#[derive(Debug, Clone)]
pub struct IngestRequest {
    pub events: Vec<EventInput>,
}

/// The service's liveness report.
#[derive(Debug, Clone)]
pub struct HealthResponse {
    pub status: String,
    pub service: String,
    pub version: String,
    pub timestamp: i64,
}

/// Counts reported by the stats endpoint.
#[derive(Debug, Clone, Copy, PartialEq, Eq, Structural)]
pub struct StatsResponse {
    pub pipelines_active: usize,
    pub events_buffered: usize,
    pub metrics_collected: usize,
    pub uptime_seconds: u64,
}

/// The liveness report at time `now`.
pub fn health(now: i64) -> (r: HealthResponse)
    ensures
        r.status@ == "healthy"@,
        r.service@ == "datapulse"@,
        r.version@ == "0.1.0"@,
        r.timestamp == now,
{
    HealthResponse {
        status: "healthy".to_owned(),
        service: "datapulse".to_owned(),
        version: "0.1.0".to_owned(),
        timestamp: now,
    }
}

/// Relies on `uuid::Uuid::new_v4` and the hyphenated form its `Display`
/// renders: a freshly generated random UUID printed as 36 characters.
/// The result is random, so nothing else is promised.
#[verifier::external_body]
fn fresh_id() -> (r: String)
    ensures
        r@.len() == 36,
{
    uuid::Uuid::new_v4().to_string()
}

/// The first index in `s` holding a pipeline with id `id`, or `-1`.
pub open spec fn pipeline_index(s: Seq<Pipeline>, id: Seq<char>) -> int
    decreases s.len(),
{
    if s.len() == 0 {
        -1
    } else if s[0].id@ == id {
        0
    } else if pipeline_index(s.drop_first(), id) < 0 {
        -1
    } else {
        pipeline_index(s.drop_first(), id) + 1
    }
}

/// `pipeline_index` returns either a valid first match or `-1` when no
/// pipeline has the id.
pub proof fn lemma_pipeline_index_props(s: Seq<Pipeline>, id: Seq<char>)
    ensures
        pipeline_index(s, id) >= 0 ==> 0 <= pipeline_index(s, id) < s.len() && s[pipeline_index(
            s,
            id,
        )].id@ == id,
        pipeline_index(s, id) < 0 ==> forall|j: int| 0 <= j < s.len() ==> s[j].id@ != id,
    decreases s.len(),
{
    if s.len() != 0 && s[0].id@ != id {
        lemma_pipeline_index_props(s.drop_first(), id);
        if pipeline_index(s, id) < 0 {
            assert forall|j: int| 0 <= j < s.len() implies s[j].id@ != id by {
                if j > 0 {
                    assert(s.drop_first()[j - 1] == s[j]);
                }
            }
        }
    }
}

/// A first match determines `pipeline_index`.
pub proof fn lemma_pipeline_index_of_first_match(s: Seq<Pipeline>, id: Seq<char>, i: int)
    requires
        0 <= i < s.len(),
        s[i].id@ == id,
        forall|j: int| 0 <= j < i ==> s[j].id@ != id,
    ensures
        pipeline_index(s, id) == i,
    decreases s.len(),
{
    if i == 0 {
    } else {
        assert(s[0].id@ != id);
        assert(s.drop_first()[i - 1].id@ == id);
        assert forall|j: int| 0 <= j < i - 1 implies s.drop_first()[j].id@ != id by {
            assert(s.drop_first()[j] == s[j + 1]);
        }
        lemma_pipeline_index_of_first_match(s.drop_first(), id, i - 1);
    }
}

/// How many pipelines in `s` are currently running.
pub open spec fn count_running(s: Seq<Pipeline>) -> int
    decreases s.len(),
{
    if s.len() == 0 {
        0
    } else {
        count_running(s.drop_last()) + if s.last().status is Running {
            1int
        } else {
            0int
        }
    }
}

/// Whether `ev` is the buffered form of `input`, stamped at `now`: a fresh
/// 36-character id, the submitted fields, and the ingestion timestamp.
pub open spec fn event_from(ev: Event, input: EventInput, now: i64) -> bool {
    &&& ev.id@.len() == 36
    &&& ev.event_type == input.event_type
    &&& ev.source == input.source
    &&& ev.data == input.data
    &&& ev.timestamp == now
}

/// What stands at index `k` of the event buffer after ingesting `inputs`
/// onto `s0` at `now`, before any bounding: the old buffer, then the
/// buffered form of each input, in order.
pub open spec fn ingested_at(ev: Event, k: int, s0: Seq<Event>, inputs: Seq<EventInput>, now: i64) -> bool {
    if k < s0.len() {
        ev == s0[k]
    } else {
        event_from(ev, inputs[k - s0.len()], now)
    }
}

/// The registry's state: every registered pipeline, and the bounded buffer
/// of ingested events.
pub struct Registry {
    pipelines: Vec<Pipeline>,
    events_buffer: Vec<Event>,
}

impl Registry {
    /// All registered pipelines, in order of registration.
    pub closed spec fn pipelines(self) -> Seq<Pipeline> {
        self.pipelines@
    }

    /// The buffered events, oldest first.
    pub closed spec fn events(self) -> Seq<Event> {
        self.events_buffer@
    }

    /// Pipeline ids are unique, as in the key-value store they model.
    pub open spec fn wf(self) -> bool {
        forall|i: int, j: int|
            0 <= i < j < self.pipelines().len() ==> #[trigger] self.pipelines()[i].id@
                != #[trigger] self.pipelines()[j].id@
    }

    /// An empty registry.
    pub fn new() -> (r: Registry)
        ensures
            r.wf(),
            r.pipelines().len() == 0,
            r.events().len() == 0,
    {
        Registry { pipelines: Vec::new(), events_buffer: Vec::new() }
    }

    /// The index of the pipeline with id `id`, if one is registered.
    fn find_pipeline(&self, id: &String) -> (r: Option<usize>)
        ensures
            match r {
                Some(i) => i < self.pipelines().len() && pipeline_index(self.pipelines(), id@)
                    == i as int,
                None => pipeline_index(self.pipelines(), id@) < 0,
            },
    {
        let n = self.pipelines.len();
        let mut i: usize = 0;
        while i < n
            invariant
                n == self.pipelines().len(),
                i <= n,
                forall|j: int| 0 <= j < i ==> self.pipelines()[j].id@ != id@,
            decreases n - i,
        {
            if self.pipelines[i].id == *id {
                proof {
                    lemma_pipeline_index_of_first_match(self.pipelines(), id@, i as int);
                }
                return Some(i);
            }
            i = i + 1;
        }
        proof {
            lemma_pipeline_index_props(self.pipelines(), id@);
        }
        None
    }

    /// Register a pipeline from `req` at time `now` under a freshly
    /// generated id, and return that id.  The new record starts in the
    /// `Created` state with no events processed.
    pub fn create_pipeline(&mut self, req: CreatePipelineRequest, now: i64) -> (id: String)
        requires
            old(self).wf(),
        ensures
            final(self).wf(),
            final(self).events() == old(self).events(),
            id@.len() == 36,
            ({
                let s0 = old(self).pipelines();
                let j = pipeline_index(s0, id@);
                let p = (Pipeline {
                    id,
                    name: req.name,
                    source_topic: req.source_topic,
                    sink_topic: req.sink_topic,
                    transformation: req.transformation,
                    status: PipelineStatus::Created,
                    created_at: now,
                    events_processed: 0,
                });
                final(self).pipelines() == if j >= 0 {
                    s0.update(j, p)
                } else {
                    s0.push(p)
                }
            }),
    {
        let fresh = fresh_id();
        let id_out = fresh.clone();
        let p = Pipeline {
            id: fresh,
            name: req.name,
            source_topic: req.source_topic,
            sink_topic: req.sink_topic,
            transformation: req.transformation,
            status: PipelineStatus::Created,
            created_at: now,
            events_processed: 0,
        };
        proof {
            lemma_pipeline_index_props(old(self).pipelines(), id_out@);
        }
        match self.find_pipeline(&id_out) {
            Some(i) => {
                self.pipelines[i] = p;
            },
            None => {
                self.pipelines.push(p);
            },
        }
        id_out
    }

    /// The pipeline registered under `id`, if any.
    pub fn get_pipeline(&self, id: &String) -> (r: Option<&Pipeline>)
        ensures
            match r {
                Some(p) => pipeline_index(self.pipelines(), id@) >= 0 && *p == self.pipelines()[
                    pipeline_index(self.pipelines(), id@)
                ],
                None => pipeline_index(self.pipelines(), id@) < 0,
            },
    {
        match self.find_pipeline(id) {
            Some(i) => Some(&self.pipelines[i]),
            None => None,
        }
    }

    /// All registered pipelines, in order of registration.
    pub fn list_pipelines(&self) -> (r: &Vec<Pipeline>)
        ensures
            r@ == self.pipelines(),
    {
        &self.pipelines
    }

    /// Set the status of the pipeline registered under `id`; returns
    /// whether such a pipeline exists.
    fn set_status(&mut self, id: &String, status: PipelineStatus) -> (found: bool)
        requires
            old(self).wf(),
        ensures
            final(self).wf(),
            final(self).events() == old(self).events(),
            ({
                let s0 = old(self).pipelines();
                let j = pipeline_index(s0, id@);
                if j >= 0 {
                    found && final(self).pipelines() == s0.update(j, (Pipeline { status, ..s0[j] }))
                } else {
                    !found && final(self).pipelines() == s0
                }
            }),
    {
        proof {
            lemma_pipeline_index_props(old(self).pipelines(), id@);
        }
        match self.find_pipeline(id) {
            Some(i) => {
                let p = vec_index_mut(&mut self.pipelines, i);
                p.status = status;
                true
            },
            None => false,
        }
    }

    /// Mark the pipeline registered under `id` as running; returns whether
    /// such a pipeline exists.
    pub fn start_pipeline(&mut self, id: &String) -> (found: bool)
        requires
            old(self).wf(),
        ensures
            final(self).wf(),
            final(self).events() == old(self).events(),
            ({
                let s0 = old(self).pipelines();
                let j = pipeline_index(s0, id@);
                if j >= 0 {
                    found && final(self).pipelines() == s0.update(
                        j,
                        (Pipeline { status: PipelineStatus::Running, ..s0[j] }),
                    )
                } else {
                    !found && final(self).pipelines() == s0
                }
            }),
    {
        self.set_status(id, PipelineStatus::Running)
    }

    /// Mark the pipeline registered under `id` as stopped; returns whether
    /// such a pipeline exists.
    pub fn stop_pipeline(&mut self, id: &String) -> (found: bool)
        requires
            old(self).wf(),
        ensures
            final(self).wf(),
            final(self).events() == old(self).events(),
            ({
                let s0 = old(self).pipelines();
                let j = pipeline_index(s0, id@);
                if j >= 0 {
                    found && final(self).pipelines() == s0.update(
                        j,
                        (Pipeline { status: PipelineStatus::Stopped, ..s0[j] }),
                    )
                } else {
                    !found && final(self).pipelines() == s0
                }
            }),
    {
        self.set_status(id, PipelineStatus::Stopped)
    }

    /// Remove the pipeline registered under `id`; returns whether such a
    /// pipeline existed.
    pub fn delete_pipeline(&mut self, id: &String) -> (found: bool)
        requires
            old(self).wf(),
        ensures
            final(self).wf(),
            final(self).events() == old(self).events(),
            ({
                let s0 = old(self).pipelines();
                let j = pipeline_index(s0, id@);
                if j >= 0 {
                    found && final(self).pipelines() == s0.remove(j)
                } else {
                    !found && final(self).pipelines() == s0
                }
            }),
    {
        match self.find_pipeline(id) {
            Some(i) => {
                let _removed = self.pipelines.remove(i);
                true
            },
            None => false,
        }
    }

    /// Append the submitted events to the buffer, each under a fresh id
    /// and stamped with `now`; then, if the buffer holds more than
    /// `EVENT_BUFFER_CAP` events, drop the `EVENT_BUFFER_DRAIN` oldest.
    /// Returns how many events were accepted.
    pub fn ingest_events(&mut self, req: IngestRequest, now: i64) -> (accepted: usize)
        requires
            old(self).wf(),
        ensures
            final(self).wf(),
            final(self).pipelines() == old(self).pipelines(),
            accepted == req.events@.len(),
            ({
                let s0 = old(self).events();
                let total = s0.len() + req.events@.len();
                let dropped: int = if total > EVENT_BUFFER_CAP {
                    EVENT_BUFFER_DRAIN as int
                } else {
                    0
                };
                &&& final(self).events().len() == total - dropped
                &&& forall|k: int|
                    0 <= k < total - dropped ==> ingested_at(
                        #[trigger] final(self).events()[k],
                        k + dropped,
                        s0,
                        req.events@,
                        now,
                    )
            }),
    {
        let ghost s0 = self.events_buffer@;
        let mut inputs = req.events;
        let ghost inputs0 = inputs@;
        let accepted = inputs.len();
        let mut done: usize = 0;
        while inputs.len() > 0
            invariant
                self.pipelines@ == old(self).pipelines@,
                done + inputs@.len() == accepted,
                accepted == inputs0.len(),
                inputs@ == inputs0.skip(done as int),
                self.events_buffer@.len() == s0.len() + done,
                forall|j: int| 0 <= j < s0.len() ==> #[trigger] self.events_buffer@[j] == s0[j],
                forall|j: int|
                    s0.len() <= j < s0.len() + done ==> event_from(
                        #[trigger] self.events_buffer@[j],
                        inputs0[j - s0.len()],
                        now,
                    ),
            decreases inputs@.len(),
        {
            proof {
                assert(inputs@[0] == inputs0[done as int]);
                assert(inputs@.remove(0) =~= inputs0.skip(done as int + 1));
            }
            let input = inputs.remove(0);
            let id = fresh_id();
            let ev = Event {
                id,
                event_type: input.event_type,
                source: input.source,
                timestamp: now,
                data: input.data,
            };
            self.events_buffer.push(ev);
            done = done + 1;
        }
        let ghost grown = self.events_buffer@;
        if self.events_buffer.len() > EVENT_BUFFER_CAP {
            let mut j: usize = 0;
            while j < EVENT_BUFFER_DRAIN
                invariant
                    self.pipelines@ == old(self).pipelines@,
                    j <= EVENT_BUFFER_DRAIN,
                    grown.len() > EVENT_BUFFER_CAP,
                    self.events_buffer@ == grown.skip(j as int),
                decreases EVENT_BUFFER_DRAIN - j,
            {
                proof {
                    assert(grown.skip(j as int).remove(0) =~= grown.skip(j as int + 1));
                }
                let _dropped = self.events_buffer.remove(0);
                j = j + 1;
            }
        }
        accepted
    }

    /// The buffered events, oldest first.
    pub fn buffered_events(&self) -> (r: &Vec<Event>)
        ensures
            r@ == self.events(),
    {
        &self.events_buffer
    }

    /// The stats report: how many pipelines are running, how many events
    /// are buffered, and the caller-supplied metric count and uptime.
    pub fn get_stats(&self, metrics_collected: usize, uptime_seconds: u64) -> (r: StatsResponse)
        ensures
            r.pipelines_active == count_running(self.pipelines()),
            r.events_buffered == self.events().len(),
            r.metrics_collected == metrics_collected,
            r.uptime_seconds == uptime_seconds,
    {
        let n = self.pipelines.len();
        let mut active: usize = 0;
        let mut i: usize = 0;
        while i < n
            invariant
                n == self.pipelines().len(),
                i <= n,
                active <= i,
                active == count_running(self.pipelines().take(i as int)),
            decreases n - i,
        {
            proof {
                assert(self.pipelines().take(i as int + 1).drop_last() =~= self.pipelines().take(
                    i as int,
                ));
                assert(self.pipelines().take(i as int + 1).last() == self.pipelines()[i as int]);
            }
            if self.pipelines[i].status == PipelineStatus::Running {
                active = active + 1;
            }
            i = i + 1;
        }
        proof {
            assert(self.pipelines().take(n as int) =~= self.pipelines());
        }
        StatsResponse {
            pipelines_active: active,
            events_buffered: self.events_buffer.len(),
            metrics_collected,
            uptime_seconds,
        }
    }
}

} // verus!
