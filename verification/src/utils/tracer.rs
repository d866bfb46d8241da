//! A record of what happened to each query while it ran.

use crate::clock::current_millis;
use crate::str_map::{copy_of_strings, StrMap};
use vstd::prelude::*;

verus! {

/// One thing that happened to a query.
#[derive(Debug)]
pub struct TraceEvent {
    /// When it happened, in milliseconds since the start of 1970.
    pub timestamp: u64,
    pub event_type: String,
    pub description: String,
    pub metadata: StrMap<String>,
}

/// What happened to one query, in order.
#[derive(Debug)]
pub struct QueryTrace {
    pub query_id: String,
    pub sql: String,
    /// When the trace began, in milliseconds since the start of 1970.
    pub start_time: u64,
    pub events: Vec<TraceEvent>,
}

/// The traces of the queries that are under way, by query.
#[derive(Debug)]
pub struct Tracer {
    query_traces: StrMap<QueryTrace>,
}

/// An event as plain values.
pub struct TraceEventView {
    pub timestamp: u64,
    pub event_type: Seq<char>,
    pub description: Seq<char>,
    pub metadata: Map<Seq<char>, String>,
}

/// A trace as plain values.
pub struct QueryTraceView {
    pub query_id: Seq<char>,
    pub sql: Seq<char>,
    pub start_time: u64,
    pub events: Seq<TraceEventView>,
}

impl View for TraceEvent {
    type V = TraceEventView;

    open spec fn view(&self) -> TraceEventView {
        TraceEventView {
            timestamp: self.timestamp,
            event_type: self.event_type@,
            description: self.description@,
            metadata: self.metadata@,
        }
    }
}

/// The events of a list as plain values.
pub open spec fn event_views(events: Seq<TraceEvent>) -> Seq<TraceEventView> {
    Seq::new(events.len(), |i: int| events[i]@)
}

impl View for QueryTrace {
    type V = QueryTraceView;

    open spec fn view(&self) -> QueryTraceView {
        QueryTraceView {
            query_id: self.query_id@,
            sql: self.sql@,
            start_time: self.start_time,
            events: event_views(self.events@),
        }
    }
}

impl Clone for TraceEvent {
    fn clone(&self) -> (e: Self)
        ensures
            e@ == self@,
    {
        TraceEvent {
            timestamp: self.timestamp,
            event_type: self.event_type.clone(),
            description: self.description.clone(),
            metadata: copy_of_strings(&self.metadata),
        }
    }
}

impl Clone for QueryTrace {
    fn clone(&self) -> (t: Self)
        ensures
            t@ == self@,
    {
        let mut events: Vec<TraceEvent> = Vec::new();
        let mut i: usize = 0;
        while i < self.events.len()
            invariant
                0 <= i <= self.events@.len(),
                events@.len() == i,
                forall|j: int| 0 <= j < i ==> (#[trigger] events@[j])@ == self.events@[j]@,
            decreases self.events@.len() - i,
        {
            events.push(self.events[i].clone());
            i += 1;
        }
        proof {
            assert(event_views(events@) =~= event_views(self.events@));
        }
        QueryTrace { query_id: self.query_id.clone(), sql: self.sql.clone(), start_time: self.start_time, events }
    }
}

impl Default for Tracer {
    /// A tracer without traces.
    fn default() -> (t: Self)
        ensures
            t@ == Map::<Seq<char>, QueryTraceView>::empty(),
    {
        Tracer::new()
    }
}

/// The traces of a map as plain values.
pub open spec fn trace_views(traces: Map<Seq<char>, QueryTrace>) -> Map<Seq<char>, QueryTraceView> {
    traces.map_values(|t: QueryTrace| t@)
}

/// The trace of a query that begins at the time `now`: no events yet.
pub open spec fn fresh_trace(query_id: Seq<char>, sql: Seq<char>, now: u64) -> QueryTraceView {
    QueryTraceView { query_id, sql, start_time: now, events: Seq::empty() }
}

/// The event of these values.
pub open spec fn event_of(
    now: u64,
    event_type: Seq<char>,
    description: Seq<char>,
    metadata: Map<Seq<char>, String>,
) -> TraceEventView {
    TraceEventView { timestamp: now, event_type, description, metadata }
}

/// The trace `t` with the event `e` behind its events.
pub open spec fn with_event(t: QueryTraceView, e: TraceEventView) -> QueryTraceView {
    QueryTraceView { events: t.events.push(e), ..t }
}

impl Tracer {
    /// The traces by query, as plain values.
    pub closed spec fn view(&self) -> Map<Seq<char>, QueryTraceView> {
        trace_views(self.query_traces@)
    }

    /// A tracer without traces.
    pub fn new() -> (t: Self)
        ensures
            t@ == Map::<Seq<char>, QueryTraceView>::empty(),
    {
        let t = Tracer { query_traces: StrMap::new() };
        proof {
            assert(t@ =~= Map::<Seq<char>, QueryTraceView>::empty());
        }
        t
    }

    /// Begins the trace of the query `query_id` at the time `now`, in
    /// place of any trace of that query.
    pub fn start_query_trace_at(&mut self, query_id: String, sql: String, now: u64)
        ensures
            final(self)@ == old(self)@.insert(
                query_id@,
                fresh_trace(query_id@, sql@, now),
            ),
    {
        let trace = QueryTrace { query_id: query_id.clone(), sql, start_time: now, events: Vec::new() };
        proof {
            assert(trace@.events =~= Seq::<TraceEventView>::empty());
        }
        let ghost before = self.query_traces@;
        self.query_traces.insert(query_id, trace);
        proof {
            assert(trace_views(before.insert(query_id@, trace)) =~= trace_views(before).insert(
                query_id@,
                trace@,
            ));
        }
    }

    /// Begins the trace of the query `query_id` now.
    pub fn start_query_trace(&mut self, query_id: String, sql: String)
        ensures
            exists|now: u64|
                final(self)@ == old(self)@.insert(
                    query_id@,
                    #[trigger] fresh_trace(query_id@, sql@, now),
                ),
    {
        let now = current_millis();
        self.start_query_trace_at(query_id, sql, now);
    }

    /// Adds `event` to the trace of the query `query_id`; nothing happens
    /// where that query has no trace.
    pub fn record(&mut self, query_id: &str, event: TraceEvent)
        ensures
            old(self)@.contains_key(query_id@) ==> final(self)@ == old(self)@.insert(
                query_id@,
                with_event(old(self)@[query_id@], event@),
            ),
            !old(self)@.contains_key(query_id@) ==> final(self)@ == old(self)@,
    {
        match self.query_traces.position(query_id) {
            Some(i) => {
                let ghost before = self.query_traces@;
                proof {
                    crate::str_map::lemma_paired_at(
                        self.query_traces.key_seq(),
                        self.query_traces.value_seq(),
                        i as int,
                    );
                }
                let blank = QueryTrace {
                    query_id: String::new(),
                    sql: String::new(),
                    start_time: 0,
                    events: Vec::new(),
                };
                let mut trace = self.query_traces.replace_at(i, blank);
                let ghost events = trace.events@;
                trace.events.push(event);
                proof {
                    assert(event_views(trace.events@) =~= event_views(events).push(event@));
                    assert(trace@ == with_event(before[query_id@]@, event@));
                }
                self.query_traces.replace_at(i, trace);
                proof {
                    assert(self.query_traces@ =~= before.insert(query_id@, trace));
                    assert(trace_views(before.insert(query_id@, trace)) =~= trace_views(before).insert(
                        query_id@,
                        trace@,
                    ));
                }
            },
            None => {},
        }
    }

    /// Adds an event of the time `now`, without notes, to the trace of the
    /// query `query_id`; nothing happens where that query has no trace.
    pub fn add_event_at(&mut self, query_id: String, event_type: String, description: String, now: u64)
        ensures
            old(self)@.contains_key(query_id@) ==> final(self)@ == old(self)@.insert(
                query_id@,
                with_event(
                    old(self)@[query_id@],
                    event_of(now, event_type@, description@, Map::empty()),
                ),
            ),
            !old(self)@.contains_key(query_id@) ==> final(self)@ == old(self)@,
    {
        let event = TraceEvent { timestamp: now, event_type, description, metadata: StrMap::new() };
        self.record(query_id.as_str(), event);
    }

    /// Adds an event of the present time, without notes.
    pub fn add_event(&mut self, query_id: String, event_type: String, description: String)
        ensures
            old(self)@.contains_key(query_id@) ==> exists|now: u64|
                final(self)@ == old(self)@.insert(
                    query_id@,
                    with_event(
                        old(self)@[query_id@],
                        #[trigger] event_of(now, event_type@, description@, Map::empty()),
                    ),
                ),
            !old(self)@.contains_key(query_id@) ==> final(self)@ == old(self)@,
    {
        let now = current_millis();
        self.add_event_at(query_id, event_type, description, now);
    }

    /// Adds an event of the time `now`, with notes, to the trace of the
    /// query `query_id`; nothing happens where that query has no trace.
    pub fn add_event_with_metadata_at(
        &mut self,
        query_id: String,
        event_type: String,
        description: String,
        metadata: StrMap<String>,
        now: u64,
    )
        ensures
            old(self)@.contains_key(query_id@) ==> final(self)@ == old(self)@.insert(
                query_id@,
                with_event(
                    old(self)@[query_id@],
                    event_of(now, event_type@, description@, metadata@),
                ),
            ),
            !old(self)@.contains_key(query_id@) ==> final(self)@ == old(self)@,
    {
        let event = TraceEvent { timestamp: now, event_type, description, metadata };
        self.record(query_id.as_str(), event);
    }

    /// Adds an event of the present time, with notes.
    pub fn add_event_with_metadata(
        &mut self,
        query_id: String,
        event_type: String,
        description: String,
        metadata: StrMap<String>,
    )
        ensures
            old(self)@.contains_key(query_id@) ==> exists|now: u64|
                final(self)@ == old(self)@.insert(
                    query_id@,
                    with_event(
                        old(self)@[query_id@],
                        #[trigger] event_of(now, event_type@, description@, metadata@),
                    ),
                ),
            !old(self)@.contains_key(query_id@) ==> final(self)@ == old(self)@,
    {
        let now = current_millis();
        self.add_event_with_metadata_at(query_id, event_type, description, metadata, now);
    }

    /// A copy of the trace of the query `query_id`, if it has one.
    pub fn get_trace(&self, query_id: String) -> (r: Option<QueryTrace>)
        ensures
            match r {
                Some(t) => self@.contains_key(query_id@) && t@ == self@[query_id@],
                None => !self@.contains_key(query_id@),
            },
    {
        match self.query_traces.get(query_id.as_str()) {
            Some(t) => Some(t.clone()),
            None => None,
        }
    }

    /// Ends the trace of the query `query_id` and hands it out, if the
    /// query has one.
    pub fn complete_query_trace(&mut self, query_id: String) -> (r: Option<QueryTrace>)
        ensures
            final(self)@ == old(self)@.remove(query_id@),
            match r {
                Some(t) => old(self)@.contains_key(query_id@) && t@ == old(self)@[query_id@],
                None => !old(self)@.contains_key(query_id@),
            },
    {
        let ghost before = self.query_traces@;
        let r = self.query_traces.remove(query_id.as_str());
        proof {
            assert(trace_views(before.remove(query_id@)) =~= trace_views(before).remove(query_id@));
        }
        r
    }

    /// A copy of all traces.
    pub fn get_all_traces(&self) -> (all: StrMap<QueryTrace>)
        ensures
            trace_views(all@) == self@,
    {
        let all = self.query_traces.clone();
        proof {
            let a = self.query_traces;
            assert forall|k: Seq<char>| a@.contains_key(k) implies #[trigger] all@[k]@ == a@[k]@ by {
                let i = choose|i: int| 0 <= i < a.key_seq().len() && a.key_seq()[i] == k;
                crate::str_map::lemma_paired_at(a.key_seq(), a.value_seq(), i);
                crate::str_map::lemma_paired_at(all.key_seq(), all.value_seq(), i);
                assert(vstd::pervasive::cloned::<QueryTrace>(a.value_seq()[i], all.value_seq()[i]));
            }
            assert(trace_views(all@) =~= trace_views(a@));
        }
        all
    }

    /// Drops all traces.
    pub fn clear_traces(&mut self)
        ensures
            final(self)@ == Map::<Seq<char>, QueryTraceView>::empty(),
    {
        self.query_traces.clear();
        proof {
            assert(self@ =~= Map::<Seq<char>, QueryTraceView>::empty());
        }
    }
}

} // verus!
