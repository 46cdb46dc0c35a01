//! The facade over all feeds: picks the source for a given address, starts and stops the
//! seven workers together, and hands out their records and the ride.
use crate::ride::Ride;
use crate::tpvbc::worker::{
    BcastStreamEntriesWorker, BcastStreamEventWorker, BcastStreamFocusWorker,
    BcastStreamGroupsWorker, BcastStreamNearestWorker, BcastStreamResultsIndvWorker,
    BcastStreamResultsTeamWorker,
};
use crate::tpvbc::{
    is_blank_entries, is_blank_event, is_blank_focus, is_blank_groups, is_blank_nearest,
    is_blank_results_indv, is_blank_results_team, is_file_address, is_file_address_exec,
    published_list, published_record, source_of, started_as, state_after_fetch, BcastState, BcastStatus, Entries,
    Event, FeedKind, Focus, Groups, Nearest, ResultsIndv, ResultsTeam,
};
use vstd::prelude::*;

verus! {

/// How the feeds are read.
#[derive(Clone, Copy, Debug, PartialEq, Eq, Structural)]
pub enum BcastMethod {
    HttpClient,
    File,
}

/// The way of reading that the source `address` calls for: a `file://` address names a
/// directory of files, any other a server.
pub open spec fn method_of(address: Seq<char>) -> BcastMethod {
    if is_file_address(address) {
        BcastMethod::File
    } else {
        BcastMethod::HttpClient
    }
}

/// The lifecycle of a worker that was never started.
pub open spec fn initial_state() -> BcastState {
    BcastState { started: false, stopped: true, status: BcastStatus::Unknown, frame: 0 }
}

/// How a feed's lifecycle and source follow from a start on `address`: a worker that is
/// stopped (a fresh one always is) starts and reads the feed's source for the address; one
/// that is not keeps what it had.
pub open spec fn feed_started(
    o_state: BcastState,
    o_url: Seq<char>,
    n_state: BcastState,
    n_url: Seq<char>,
    fresh: bool,
    address: Seq<char>,
    kind: FeedKind,
) -> bool {
    let base = if fresh {
        initial_state()
    } else {
        o_state
    };
    if base.stopped && !base.started {
        n_state == started_as(base, true) && n_url == source_of(address, kind)
    } else {
        n_state == base && n_url == o_url
    }
}

/// How a feed's lifecycle follows from a stop: a running worker is marked to end.
pub open spec fn feed_stopped(o: BcastState, n: BcastState) -> bool {
    if !o.stopped && o.started {
        n == started_as(o, false)
    } else {
        n == o
    }
}

/// The next generation of loops; it wraps to zero past the largest value.
pub open spec fn next_generation(g: u64) -> u64 {
    if g == u64::MAX {
        0
    } else {
        (g + 1) as u64
    }
}

/// The seven workers, the way they read, and the generation of the loops that serve them.
/// A loop belongs to the generation in which it was started, and acts only while that
/// generation is current.
pub struct Facade {
    pub bcast_method: BcastMethod,
    pub generation: u64,
    pub focus: BcastStreamFocusWorker,
    pub nearest: BcastStreamNearestWorker,
    pub event: BcastStreamEventWorker,
    pub entries: BcastStreamEntriesWorker,
    pub groups: BcastStreamGroupsWorker,
    pub results_indv: BcastStreamResultsIndvWorker,
    pub results_team: BcastStreamResultsTeamWorker,
}

/// Each feed's two lifecycle flags agree, stated feed by feed.
pub open spec fn flags_agree_each(f: Facade) -> bool {
    &&& f.focus.stream.state.stopped == !f.focus.stream.state.started
    &&& f.nearest.stream.state.stopped == !f.nearest.stream.state.started
    &&& f.event.stream.state.stopped == !f.event.stream.state.started
    &&& f.entries.stream.state.stopped == !f.entries.stream.state.started
    &&& f.groups.stream.state.stopped == !f.groups.stream.state.started
    &&& f.results_indv.stream.state.stopped == !f.results_indv.stream.state.started
    &&& f.results_team.stream.state.stopped == !f.results_team.stream.state.started
}

proof fn lemma_flags_agree_each(f: Facade)
    requires
        forall|k: FeedKind| #[trigger] f.feed_state(k).stopped == !f.feed_state(k).started,
    ensures
        flags_agree_each(f),
{
    assert(f.feed_state(FeedKind::Focus).stopped == !f.feed_state(FeedKind::Focus).started);
    assert(f.feed_state(FeedKind::Nearest).stopped == !f.feed_state(FeedKind::Nearest).started);
    assert(f.feed_state(FeedKind::Event).stopped == !f.feed_state(FeedKind::Event).started);
    assert(f.feed_state(FeedKind::Entries).stopped == !f.feed_state(FeedKind::Entries).started);
    assert(f.feed_state(FeedKind::Groups).stopped == !f.feed_state(FeedKind::Groups).started);
    assert(f.feed_state(FeedKind::ResultsIndv).stopped == !f.feed_state(FeedKind::ResultsIndv).started);
    assert(f.feed_state(FeedKind::ResultsTeam).stopped == !f.feed_state(FeedKind::ResultsTeam).started);
}

proof fn lemma_flags_agree_all(f: Facade)
    requires
        flags_agree_each(f),
    ensures
        forall|k: FeedKind| #[trigger] f.feed_state(k).stopped == !f.feed_state(k).started,
{
    assert forall|k: FeedKind| #[trigger] f.feed_state(k).stopped == !f.feed_state(k).started by {
        match k {
            FeedKind::Focus => {},
            FeedKind::Nearest => {},
            FeedKind::Event => {},
            FeedKind::Entries => {},
            FeedKind::Groups => {},
            FeedKind::ResultsIndv => {},
            FeedKind::ResultsTeam => {},
        }
    }
}

impl Facade {
    /// The ride is well formed, and each feed's two lifecycle flags agree.
    pub open spec fn wf(&self) -> bool {
        &&& self.focus.stream.ride.wf()
        &&& forall|k: FeedKind| #[trigger] self.feed_state(k).stopped == !self.feed_state(k).started
    }

    /// The lifecycle of the feed `kind`.
    pub open spec fn feed_state(&self, kind: FeedKind) -> BcastState {
        match kind {
            FeedKind::Focus => self.focus.stream.state,
            FeedKind::Nearest => self.nearest.stream.state,
            FeedKind::Event => self.event.stream.state,
            FeedKind::Entries => self.entries.stream.state,
            FeedKind::Groups => self.groups.stream.state,
            FeedKind::ResultsIndv => self.results_indv.stream.state,
            FeedKind::ResultsTeam => self.results_team.stream.state,
        }
    }

    /// The source that the worker of feed `kind` reads.
    pub open spec fn feed_url(&self, kind: FeedKind) -> Seq<char> {
        match kind {
            FeedKind::Focus => self.focus.url@,
            FeedKind::Nearest => self.nearest.url@,
            FeedKind::Event => self.event.url@,
            FeedKind::Entries => self.entries.url@,
            FeedKind::Groups => self.groups.url@,
            FeedKind::ResultsIndv => self.results_indv.url@,
            FeedKind::ResultsTeam => self.results_team.url@,
        }
    }

    /// Every worker's loop is to run.
    pub open spec fn spec_running(&self) -> bool {
        forall|k: FeedKind| #[trigger] self.feed_state(k).started
    }

    /// Some worker's loop is to run.
    pub open spec fn spec_any_running(&self) -> bool {
        exists|k: FeedKind| #[trigger] self.feed_state(k).started
    }

    /// Every record of `n` is the one of `o`, and so is the ride.
    pub open spec fn same_records(o: Facade, n: Facade) -> bool {
        &&& n.focus.stream.data == o.focus.stream.data
        &&& n.nearest.stream.data == o.nearest.stream.data
        &&& n.event.stream.data == o.event.stream.data
        &&& n.entries.stream.data == o.entries.stream.data
        &&& n.groups.stream.data == o.groups.stream.data
        &&& n.results_indv.stream.data == o.results_indv.stream.data
        &&& n.results_team.stream.data == o.results_team.stream.data
        &&& n.focus.stream.ride == o.focus.stream.ride
    }

    /// Every record holds its placeholder and the ride is new.
    pub open spec fn blank_records(&self) -> bool {
        &&& is_blank_focus(self.focus.stream.data)
        &&& self.nearest.stream.data@.len() == 1 && is_blank_nearest(self.nearest.stream.data@[0])
        &&& is_blank_event(self.event.stream.data)
        &&& self.entries.stream.data@.len() == 1 && is_blank_entries(self.entries.stream.data@[0])
        &&& self.groups.stream.data@.len() == 1 && is_blank_groups(self.groups.stream.data@[0])
        &&& self.results_indv.stream.data@.len() == 1 && is_blank_results_indv(self.results_indv.stream.data@[0])
        &&& self.results_team.stream.data@.len() == 1 && is_blank_results_team(self.results_team.stream.data@[0])
        &&& self.focus.stream.ride.is_reset()
    }

    /// A facade reading from the default server, with nothing started.
    pub fn new() -> (r: Facade)
        ensures
            r.wf(),
            r.bcast_method == BcastMethod::HttpClient,
            forall|k: FeedKind| #[trigger] r.feed_state(k) == initial_state(),
            r.blank_records(),
    {
        let r = Facade {
            bcast_method: BcastMethod::HttpClient,
            generation: 0,
            focus: BcastStreamFocusWorker::new(),
            nearest: BcastStreamNearestWorker::new(),
            event: BcastStreamEventWorker::new(),
            entries: BcastStreamEntriesWorker::new(),
            groups: BcastStreamGroupsWorker::new(),
            results_indv: BcastStreamResultsIndvWorker::new(),
            results_team: BcastStreamResultsTeamWorker::new(),
        };
        assert forall|k: FeedKind| #[trigger] r.feed_state(k) == initial_state() by {
            match k {
                FeedKind::Focus => {},
                FeedKind::Nearest => {},
                FeedKind::Event => {},
                FeedKind::Entries => {},
                FeedKind::Groups => {},
                FeedKind::ResultsIndv => {},
                FeedKind::ResultsTeam => {},
            }
        }
        r
    }

    /// Starts every feed on the source `url`. Does nothing while any feed runs. Otherwise
    /// a change between file and server source replaces all workers by fresh ones first;
    /// then every stopped worker starts, and a new generation of loops begins. Returns
    /// whether it started: the loops of the new generation are then to be run.
    #[verifier::rlimit(50)]
    pub fn start(&mut self, url: String) -> (started: bool)
        requires
            old(self).wf(),
        ensures
            final(self).wf(),
            started == !old(self).spec_any_running(),
            !started ==> *final(self) == *old(self),
            started ==> final(self).bcast_method == method_of(url@),
            started ==> final(self).generation == next_generation(old(self).generation),
            started ==> final(self).spec_running(),
            started ==> forall|k: FeedKind|
                feed_started(
                    old(self).feed_state(k),
                    old(self).feed_url(k),
                    #[trigger] final(self).feed_state(k),
                    final(self).feed_url(k),
                    old(self).bcast_method != method_of(url@),
                    url@,
                    k,
                ),
            started && old(self).bcast_method == method_of(url@) ==> Facade::same_records(
                *old(self),
                *final(self),
            ),
            started && old(self).bcast_method != method_of(url@) ==> final(self).blank_records(),
    {
        if self.any_running() {
            return false;
        }
        let method = if is_file_address_exec(url.as_str()) {
            BcastMethod::File
        } else {
            BcastMethod::HttpClient
        };
        if self.bcast_method != method {
            self.focus = BcastStreamFocusWorker::new();
            self.nearest = BcastStreamNearestWorker::new();
            self.event = BcastStreamEventWorker::new();
            self.entries = BcastStreamEntriesWorker::new();
            self.groups = BcastStreamGroupsWorker::new();
            self.results_indv = BcastStreamResultsIndvWorker::new();
            self.results_team = BcastStreamResultsTeamWorker::new();
            self.bcast_method = method;
        }
        self.generation = if self.generation == u64::MAX {
            0
        } else {
            self.generation + 1
        };
        let _ = self.focus.start(url.clone());
        let _ = self.nearest.start(url.clone());
        let _ = self.event.start(url.clone());
        let _ = self.entries.start(url.clone());
        let _ = self.groups.start(url.clone());
        let _ = self.results_indv.start(url.clone());
        let _ = self.results_team.start(url);
        assert forall|k: FeedKind|
            feed_started(
                old(self).feed_state(k),
                old(self).feed_url(k),
                #[trigger] self.feed_state(k),
                self.feed_url(k),
                old(self).bcast_method != method_of(url@),
                url@,
                k,
            ) by {
            match k {
                    FeedKind::Focus => {},
                    FeedKind::Nearest => {},
                    FeedKind::Event => {},
                    FeedKind::Entries => {},
                    FeedKind::Groups => {},
                    FeedKind::ResultsIndv => {},
                    FeedKind::ResultsTeam => {},
            }
        }
        true
    }

    /// Asks every running loop to end.
    #[verifier::rlimit(50)]
    pub fn stop(&mut self)
        requires
            old(self).wf(),
        ensures
            final(self).wf(),
            forall|k: FeedKind|
                feed_stopped(old(self).feed_state(k), #[trigger] final(self).feed_state(k)),
            forall|k: FeedKind| #[trigger] final(self).feed_url(k) == old(self).feed_url(k),
            Facade::same_records(*old(self), *final(self)),
            final(self).bcast_method == old(self).bcast_method,
            final(self).generation == old(self).generation,
    {
        self.focus.stop();
        self.nearest.stop();
        self.event.stop();
        self.entries.stop();
        self.groups.stop();
        self.results_indv.stop();
        self.results_team.stop();
        assert forall|k: FeedKind|
            feed_stopped(old(self).feed_state(k), #[trigger] self.feed_state(k)) by {
            match k {
                FeedKind::Focus => {},
                FeedKind::Nearest => {},
                FeedKind::Event => {},
                FeedKind::Entries => {},
                FeedKind::Groups => {},
                FeedKind::ResultsIndv => {},
                FeedKind::ResultsTeam => {},
            }
        }
        assert forall|k: FeedKind| #[trigger] self.feed_url(k) == old(self).feed_url(k) by {
            match k {
                FeedKind::Focus => {},
                FeedKind::Nearest => {},
                FeedKind::Event => {},
                FeedKind::Entries => {},
                FeedKind::Groups => {},
                FeedKind::ResultsIndv => {},
                FeedKind::ResultsTeam => {},
            }
        }
    }

    /// Whether every feed's loop is to run.
    pub fn running(&self) -> (r: bool)
        ensures
            r == self.spec_running(),
    {
        let r = self.focus.running() && self.nearest.running() && self.event.running() && self.entries.running() && self.groups.running() && self.results_indv.running() && self.results_team.running();
        assert(r == self.spec_running()) by {
            if !r {
                if !self.focus.stream.state.started {
                    assert(!self.feed_state(FeedKind::Focus).started);
                } else if !self.nearest.stream.state.started {
                    assert(!self.feed_state(FeedKind::Nearest).started);
                } else if !self.event.stream.state.started {
                    assert(!self.feed_state(FeedKind::Event).started);
                } else if !self.entries.stream.state.started {
                    assert(!self.feed_state(FeedKind::Entries).started);
                } else if !self.groups.stream.state.started {
                    assert(!self.feed_state(FeedKind::Groups).started);
                } else if !self.results_indv.stream.state.started {
                    assert(!self.feed_state(FeedKind::ResultsIndv).started);
                } else {
                    assert(!self.feed_state(FeedKind::ResultsTeam).started);
                }
            } else {
                assert forall|k: FeedKind| #[trigger] self.feed_state(k).started by {
                    match k {
                        FeedKind::Focus => {},
                        FeedKind::Nearest => {},
                        FeedKind::Event => {},
                        FeedKind::Entries => {},
                        FeedKind::Groups => {},
                        FeedKind::ResultsIndv => {},
                        FeedKind::ResultsTeam => {},
                    }
                }
            }
        }
        r
    }

    /// Whether some feed's loop is to run.
    fn any_running(&self) -> (r: bool)
        ensures
            r == self.spec_any_running(),
    {
        let r = self.focus.running() || self.nearest.running() || self.event.running() || self.entries.running() || self.groups.running() || self.results_indv.running() || self.results_team.running();
        assert(r == self.spec_any_running()) by {
            if r {
                if self.focus.stream.state.started {
                    assert(self.feed_state(FeedKind::Focus).started);
                } else if self.nearest.stream.state.started {
                    assert(self.feed_state(FeedKind::Nearest).started);
                } else if self.event.stream.state.started {
                    assert(self.feed_state(FeedKind::Event).started);
                } else if self.entries.stream.state.started {
                    assert(self.feed_state(FeedKind::Entries).started);
                } else if self.groups.stream.state.started {
                    assert(self.feed_state(FeedKind::Groups).started);
                } else if self.results_indv.stream.state.started {
                    assert(self.feed_state(FeedKind::ResultsIndv).started);
                } else {
                    assert(self.feed_state(FeedKind::ResultsTeam).started);
                }
            } else {
                assert forall|k: FeedKind| !(#[trigger] self.feed_state(k).started) by {
                    match k {
                    FeedKind::Focus => {},
                    FeedKind::Nearest => {},
                    FeedKind::Event => {},
                    FeedKind::Entries => {},
                    FeedKind::Groups => {},
                    FeedKind::ResultsIndv => {},
                    FeedKind::ResultsTeam => {},
                    }
                }
            }
        }
        r
    }

    /// Whether a loop of generation `generation` still serves the feed `kind`: the generation
    /// is current and the feed's worker is running.
    pub fn feed_active(&self, kind: FeedKind, generation: u64) -> (r: bool)
        ensures
            r == (generation == self.generation && self.feed_state(kind).started),
    {
        if generation != self.generation {
            return false;
        }
        match kind {
            FeedKind::Focus => self.focus.running(),
            FeedKind::Nearest => self.nearest.running(),
            FeedKind::Event => self.event.running(),
            FeedKind::Entries => self.entries.running(),
            FeedKind::Groups => self.groups.running(),
            FeedKind::ResultsIndv => self.results_indv.running(),
            FeedKind::ResultsTeam => self.results_team.running(),
        }
    }

    /// Marks the loop of feed `kind` as ended, when it belongs to the current generation; a
    /// loop of an earlier generation leaves everything as it is.
    #[verifier::rlimit(50)]
    pub fn feed_finished(&mut self, kind: FeedKind, generation: u64)
        requires
            old(self).wf(),
        ensures
            final(self).wf(),
            generation == old(self).generation ==> final(self).feed_state(kind) == crate::tpvbc::finished(
                old(self).feed_state(kind),
            ),
            generation != old(self).generation ==> *final(self) == *old(self),
            forall|k: FeedKind| k != kind ==> #[trigger] final(self).feed_state(k) == old(self).feed_state(k),
            Facade::same_records(*old(self), *final(self)),
    {
        if generation != self.generation {
            return;
        }
        proof {
            lemma_flags_agree_each(*self);
        }
        match kind {
            FeedKind::Focus => self.focus.stream.finish(),
            FeedKind::Nearest => self.nearest.stream.finish(),
            FeedKind::Event => self.event.stream.finish(),
            FeedKind::Entries => self.entries.stream.finish(),
            FeedKind::Groups => self.groups.stream.finish(),
            FeedKind::ResultsIndv => self.results_indv.stream.finish(),
            FeedKind::ResultsTeam => self.results_team.stream.finish(),
        }
        proof {
            lemma_flags_agree_all(*self);
        }
    }

    /// Hands a fetch of the Focus feed to its stream, when the loop that made it belongs to the
    /// current generation; returns how long that loop then waits, or `None` for a loop of an
    /// earlier generation, whose fetch is dropped.
    pub fn take_focus(&mut self, generation: u64, fetched: Option<Vec<Focus>>) -> (wait_ms: Option<u64>)
        requires
            old(self).wf(),
        ensures
            final(self).wf(),
            generation != old(self).generation ==> *final(self) == *old(self) && wait_ms is None,
            generation == old(self).generation ==> wait_ms is Some,
            generation == old(self).generation ==> final(self).feed_state(FeedKind::Focus)
                == state_after_fetch(old(self).feed_state(FeedKind::Focus), fetched),
            generation == old(self).generation ==> final(self).focus.stream.data == published_record(
                old(self).focus.stream.data,
                fetched,
            ),
            generation == old(self).generation && fetched is Some ==> Ride::updated(
                old(self).focus.stream.ride,
                final(self).focus.stream.ride,
                final(self).focus.stream.data,
            ),
    {
        if generation != self.generation {
            return None;
        }
        proof {
            lemma_flags_agree_each(*self);
        }
        let wait_ms = self.focus.stream.take_fetch(fetched);
        proof {
            lemma_flags_agree_all(*self);
        }
        Some(wait_ms)
    }

    /// A copy of the latest Focus records.
    pub fn tpv_focus_data(&self) -> (r: Focus)
        ensures
            r == self.focus.stream.data,
    {
        self.focus.stream.data()
    }

    /// The lifecycle of the Focus feed.
    pub fn tpv_focus_state(&self) -> (r: BcastState)
        ensures
            r == self.focus.stream.state,
    {
        self.focus.stream.state()
    }

    /// Hands a fetch of the Nearest feed to its stream, when the loop that made it belongs to the
    /// current generation; returns how long that loop then waits, or `None` for a loop of an
    /// earlier generation, whose fetch is dropped.
    pub fn take_nearest(&mut self, generation: u64, fetched: Option<Vec<Nearest>>) -> (wait_ms: Option<u64>)
        requires
            old(self).wf(),
        ensures
            final(self).wf(),
            generation != old(self).generation ==> *final(self) == *old(self) && wait_ms is None,
            generation == old(self).generation ==> wait_ms is Some,
            generation == old(self).generation ==> final(self).feed_state(FeedKind::Nearest)
                == state_after_fetch(old(self).feed_state(FeedKind::Nearest), fetched),
            generation == old(self).generation ==> final(self).nearest.stream.data@ == published_list(
                old(self).nearest.stream.data@,
                fetched,
            ),
    {
        if generation != self.generation {
            return None;
        }
        proof {
            lemma_flags_agree_each(*self);
        }
        let wait_ms = self.nearest.stream.take_fetch(fetched);
        proof {
            lemma_flags_agree_all(*self);
        }
        Some(wait_ms)
    }

    /// A copy of the latest Nearest records.
    pub fn tpv_nearest_data(&self) -> (r: Vec<Nearest>)
        ensures
            r@ == self.nearest.stream.data@,
    {
        self.nearest.stream.data()
    }

    /// The lifecycle of the Nearest feed.
    pub fn tpv_nearest_state(&self) -> (r: BcastState)
        ensures
            r == self.nearest.stream.state,
    {
        self.nearest.stream.state()
    }

    /// Hands a fetch of the Event feed to its stream, when the loop that made it belongs to the
    /// current generation; returns how long that loop then waits, or `None` for a loop of an
    /// earlier generation, whose fetch is dropped.
    pub fn take_event(&mut self, generation: u64, fetched: Option<Vec<Event>>) -> (wait_ms: Option<u64>)
        requires
            old(self).wf(),
        ensures
            final(self).wf(),
            generation != old(self).generation ==> *final(self) == *old(self) && wait_ms is None,
            generation == old(self).generation ==> wait_ms is Some,
            generation == old(self).generation ==> final(self).feed_state(FeedKind::Event)
                == state_after_fetch(old(self).feed_state(FeedKind::Event), fetched),
            generation == old(self).generation ==> final(self).event.stream.data == published_record(
                old(self).event.stream.data,
                fetched,
            ),
    {
        if generation != self.generation {
            return None;
        }
        proof {
            lemma_flags_agree_each(*self);
        }
        let wait_ms = self.event.stream.take_fetch(fetched);
        proof {
            lemma_flags_agree_all(*self);
        }
        Some(wait_ms)
    }

    /// A copy of the latest Event records.
    pub fn tpv_event_data(&self) -> (r: Event)
        ensures
            r == self.event.stream.data,
    {
        self.event.stream.data()
    }

    /// The lifecycle of the Event feed.
    pub fn tpv_event_state(&self) -> (r: BcastState)
        ensures
            r == self.event.stream.state,
    {
        self.event.stream.state()
    }

    /// Hands a fetch of the Entries feed to its stream, when the loop that made it belongs to the
    /// current generation; returns how long that loop then waits, or `None` for a loop of an
    /// earlier generation, whose fetch is dropped.
    pub fn take_entries(&mut self, generation: u64, fetched: Option<Vec<Entries>>) -> (wait_ms: Option<u64>)
        requires
            old(self).wf(),
        ensures
            final(self).wf(),
            generation != old(self).generation ==> *final(self) == *old(self) && wait_ms is None,
            generation == old(self).generation ==> wait_ms is Some,
            generation == old(self).generation ==> final(self).feed_state(FeedKind::Entries)
                == state_after_fetch(old(self).feed_state(FeedKind::Entries), fetched),
            generation == old(self).generation ==> final(self).entries.stream.data@ == published_list(
                old(self).entries.stream.data@,
                fetched,
            ),
    {
        if generation != self.generation {
            return None;
        }
        proof {
            lemma_flags_agree_each(*self);
        }
        let wait_ms = self.entries.stream.take_fetch(fetched);
        proof {
            lemma_flags_agree_all(*self);
        }
        Some(wait_ms)
    }

    /// A copy of the latest Entries records.
    pub fn tpv_entries_data(&self) -> (r: Vec<Entries>)
        ensures
            r@ == self.entries.stream.data@,
    {
        self.entries.stream.data()
    }

    /// The lifecycle of the Entries feed.
    pub fn tpv_entries_state(&self) -> (r: BcastState)
        ensures
            r == self.entries.stream.state,
    {
        self.entries.stream.state()
    }

    /// Hands a fetch of the Groups feed to its stream, when the loop that made it belongs to the
    /// current generation; returns how long that loop then waits, or `None` for a loop of an
    /// earlier generation, whose fetch is dropped.
    pub fn take_groups(&mut self, generation: u64, fetched: Option<Vec<Groups>>) -> (wait_ms: Option<u64>)
        requires
            old(self).wf(),
        ensures
            final(self).wf(),
            generation != old(self).generation ==> *final(self) == *old(self) && wait_ms is None,
            generation == old(self).generation ==> wait_ms is Some,
            generation == old(self).generation ==> final(self).feed_state(FeedKind::Groups)
                == state_after_fetch(old(self).feed_state(FeedKind::Groups), fetched),
            generation == old(self).generation ==> final(self).groups.stream.data@ == published_list(
                old(self).groups.stream.data@,
                fetched,
            ),
    {
        if generation != self.generation {
            return None;
        }
        proof {
            lemma_flags_agree_each(*self);
        }
        let wait_ms = self.groups.stream.take_fetch(fetched);
        proof {
            lemma_flags_agree_all(*self);
        }
        Some(wait_ms)
    }

    /// A copy of the latest Groups records.
    pub fn tpv_groups_data(&self) -> (r: Vec<Groups>)
        ensures
            r@ == self.groups.stream.data@,
    {
        self.groups.stream.data()
    }

    /// The lifecycle of the Groups feed.
    pub fn tpv_groups_state(&self) -> (r: BcastState)
        ensures
            r == self.groups.stream.state,
    {
        self.groups.stream.state()
    }

    /// Hands a fetch of the ResultsIndv feed to its stream, when the loop that made it belongs to the
    /// current generation; returns how long that loop then waits, or `None` for a loop of an
    /// earlier generation, whose fetch is dropped.
    pub fn take_results_indv(&mut self, generation: u64, fetched: Option<Vec<ResultsIndv>>) -> (wait_ms: Option<u64>)
        requires
            old(self).wf(),
        ensures
            final(self).wf(),
            generation != old(self).generation ==> *final(self) == *old(self) && wait_ms is None,
            generation == old(self).generation ==> wait_ms is Some,
            generation == old(self).generation ==> final(self).feed_state(FeedKind::ResultsIndv)
                == state_after_fetch(old(self).feed_state(FeedKind::ResultsIndv), fetched),
            generation == old(self).generation ==> final(self).results_indv.stream.data@ == published_list(
                old(self).results_indv.stream.data@,
                fetched,
            ),
    {
        if generation != self.generation {
            return None;
        }
        proof {
            lemma_flags_agree_each(*self);
        }
        let wait_ms = self.results_indv.stream.take_fetch(fetched);
        proof {
            lemma_flags_agree_all(*self);
        }
        Some(wait_ms)
    }

    /// A copy of the latest ResultsIndv records.
    pub fn tpv_results_indv_data(&self) -> (r: Vec<ResultsIndv>)
        ensures
            r@ == self.results_indv.stream.data@,
    {
        self.results_indv.stream.data()
    }

    /// The lifecycle of the ResultsIndv feed.
    pub fn tpv_results_indv_state(&self) -> (r: BcastState)
        ensures
            r == self.results_indv.stream.state,
    {
        self.results_indv.stream.state()
    }

    /// Hands a fetch of the ResultsTeam feed to its stream, when the loop that made it belongs to the
    /// current generation; returns how long that loop then waits, or `None` for a loop of an
    /// earlier generation, whose fetch is dropped.
    pub fn take_results_team(&mut self, generation: u64, fetched: Option<Vec<ResultsTeam>>) -> (wait_ms: Option<u64>)
        requires
            old(self).wf(),
        ensures
            final(self).wf(),
            generation != old(self).generation ==> *final(self) == *old(self) && wait_ms is None,
            generation == old(self).generation ==> wait_ms is Some,
            generation == old(self).generation ==> final(self).feed_state(FeedKind::ResultsTeam)
                == state_after_fetch(old(self).feed_state(FeedKind::ResultsTeam), fetched),
            generation == old(self).generation ==> final(self).results_team.stream.data@ == published_list(
                old(self).results_team.stream.data@,
                fetched,
            ),
    {
        if generation != self.generation {
            return None;
        }
        proof {
            lemma_flags_agree_each(*self);
        }
        let wait_ms = self.results_team.stream.take_fetch(fetched);
        proof {
            lemma_flags_agree_all(*self);
        }
        Some(wait_ms)
    }

    /// A copy of the latest ResultsTeam records.
    pub fn tpv_results_team_data(&self) -> (r: Vec<ResultsTeam>)
        ensures
            r@ == self.results_team.stream.data@,
    {
        self.results_team.stream.data()
    }

    /// The lifecycle of the ResultsTeam feed.
    pub fn tpv_results_team_state(&self) -> (r: BcastState)
        ensures
            r == self.results_team.stream.state,
    {
        self.results_team.stream.state()
    }

    /// The ride that the focus feed's samples made.
    pub fn ride(&self) -> (r: &Ride)
        ensures
            *r == self.focus.stream.ride,
    {
        self.focus.stream.ride()
    }
}

} // verus!
