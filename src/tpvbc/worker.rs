//! The workers of the feeds: each owns its feed's stream and decides when the loop that
//! fetches the feed may start and must end. The loop itself runs outside the library.
use crate::tpvbc::{
    default_address, is_blank_entries, is_blank_event, is_blank_focus, is_blank_groups,
    is_blank_nearest, is_blank_results_indv, is_blank_results_team, source_for, source_of, started_as, BcastState, BcastStatus, BcastStreamBase, BcastStreamEntries,
    BcastStreamEvent, BcastStreamFocus, BcastStreamGroups, BcastStreamNearest,
    BcastStreamResultsIndv, BcastStreamResultsTeam, FeedKind,
};
use vstd::prelude::*;

verus! {

/// The worker of the Focus feed: its stream, and the source its loop reads.
pub struct BcastStreamFocusWorker {
    pub stream: BcastStreamFocus,
    pub url: String,
}

impl BcastStreamFocusWorker {
    /// A stopped worker whose source is the default server.
    pub fn new() -> (r: BcastStreamFocusWorker)
        ensures
            r.stream.state == (BcastState {
                started: false,
                stopped: true,
                status: BcastStatus::Unknown,
                frame: 0,
            }),
            is_blank_focus(r.stream.data),
            r.url@ == source_of(default_address(), FeedKind::Focus),
            r.stream.ride.wf(),
            r.stream.ride.is_reset(),
    {
        let address = "http://localhost:8080";
        BcastStreamFocusWorker { stream: BcastStreamFocus::new(), url: source_for(address, FeedKind::Focus) }
    }

    /// Starts the worker on the source `url`, unless its loop may still be running; returns
    /// whether it started, in which case a loop is to be run for it.
    pub fn start(&mut self, url: String) -> (spawn: bool)
        ensures
            spawn == (old(self).stream.state.stopped && !old(self).stream.state.started),
            spawn ==> final(self).stream == old(self).stream.with_bcast_state(
                started_as(old(self).stream.state, true),
            ),
            spawn ==> final(self).url@ == source_of(url@, FeedKind::Focus),
            !spawn ==> final(self).stream == old(self).stream,
            !spawn ==> final(self).url == old(self).url,
    {
        if self.stream.stopped() && !self.stream.started() {
            self.url = source_for(url.as_str(), FeedKind::Focus);
            self.stream.set_started(true);
            true
        } else {
            false
        }
    }

    /// Asks a running worker's loop to end; it ends at its next turn.
    pub fn stop(&mut self)
        ensures
            (!old(self).stream.state.stopped && old(self).stream.state.started)
                ==> final(self).stream == old(self).stream.with_bcast_state(
                started_as(old(self).stream.state, false),
            ),
            !(!old(self).stream.state.stopped && old(self).stream.state.started)
                ==> final(self).stream == old(self).stream,
            final(self).url == old(self).url,
    {
        if !self.stream.stopped() && self.stream.started() {
            self.stream.set_started(false);
        }
    }

    /// Whether the worker's loop is to run.
    pub fn running(&self) -> (r: bool)
        ensures
            r == self.stream.state.started,
    {
        self.stream.started()
    }
}

/// The worker of the Nearest feed: its stream, and the source its loop reads.
pub struct BcastStreamNearestWorker {
    pub stream: BcastStreamNearest,
    pub url: String,
}

impl BcastStreamNearestWorker {
    /// A stopped worker whose source is the default server.
    pub fn new() -> (r: BcastStreamNearestWorker)
        ensures
            r.stream.state == (BcastState {
                started: false,
                stopped: true,
                status: BcastStatus::Unknown,
                frame: 0,
            }),
            r.stream.data@.len() == 1 && is_blank_nearest(r.stream.data@[0]),
            r.url@ == source_of(default_address(), FeedKind::Nearest),
    {
        let address = "http://localhost:8080";
        BcastStreamNearestWorker { stream: BcastStreamNearest::new(), url: source_for(address, FeedKind::Nearest) }
    }

    /// Starts the worker on the source `url`, unless its loop may still be running; returns
    /// whether it started, in which case a loop is to be run for it.
    pub fn start(&mut self, url: String) -> (spawn: bool)
        ensures
            spawn == (old(self).stream.state.stopped && !old(self).stream.state.started),
            spawn ==> final(self).stream == old(self).stream.with_bcast_state(
                started_as(old(self).stream.state, true),
            ),
            spawn ==> final(self).url@ == source_of(url@, FeedKind::Nearest),
            !spawn ==> final(self).stream == old(self).stream,
            !spawn ==> final(self).url == old(self).url,
    {
        if self.stream.stopped() && !self.stream.started() {
            self.url = source_for(url.as_str(), FeedKind::Nearest);
            self.stream.set_started(true);
            true
        } else {
            false
        }
    }

    /// Asks a running worker's loop to end; it ends at its next turn.
    pub fn stop(&mut self)
        ensures
            (!old(self).stream.state.stopped && old(self).stream.state.started)
                ==> final(self).stream == old(self).stream.with_bcast_state(
                started_as(old(self).stream.state, false),
            ),
            !(!old(self).stream.state.stopped && old(self).stream.state.started)
                ==> final(self).stream == old(self).stream,
            final(self).url == old(self).url,
    {
        if !self.stream.stopped() && self.stream.started() {
            self.stream.set_started(false);
        }
    }

    /// Whether the worker's loop is to run.
    pub fn running(&self) -> (r: bool)
        ensures
            r == self.stream.state.started,
    {
        self.stream.started()
    }
}

/// The worker of the Event feed: its stream, and the source its loop reads.
pub struct BcastStreamEventWorker {
    pub stream: BcastStreamEvent,
    pub url: String,
}

impl BcastStreamEventWorker {
    /// A stopped worker whose source is the default server.
    pub fn new() -> (r: BcastStreamEventWorker)
        ensures
            r.stream.state == (BcastState {
                started: false,
                stopped: true,
                status: BcastStatus::Unknown,
                frame: 0,
            }),
            is_blank_event(r.stream.data),
            r.url@ == source_of(default_address(), FeedKind::Event),
    {
        let address = "http://localhost:8080";
        BcastStreamEventWorker { stream: BcastStreamEvent::new(), url: source_for(address, FeedKind::Event) }
    }

    /// Starts the worker on the source `url`, unless its loop may still be running; returns
    /// whether it started, in which case a loop is to be run for it.
    pub fn start(&mut self, url: String) -> (spawn: bool)
        ensures
            spawn == (old(self).stream.state.stopped && !old(self).stream.state.started),
            spawn ==> final(self).stream == old(self).stream.with_bcast_state(
                started_as(old(self).stream.state, true),
            ),
            spawn ==> final(self).url@ == source_of(url@, FeedKind::Event),
            !spawn ==> final(self).stream == old(self).stream,
            !spawn ==> final(self).url == old(self).url,
    {
        if self.stream.stopped() && !self.stream.started() {
            self.url = source_for(url.as_str(), FeedKind::Event);
            self.stream.set_started(true);
            true
        } else {
            false
        }
    }

    /// Asks a running worker's loop to end; it ends at its next turn.
    pub fn stop(&mut self)
        ensures
            (!old(self).stream.state.stopped && old(self).stream.state.started)
                ==> final(self).stream == old(self).stream.with_bcast_state(
                started_as(old(self).stream.state, false),
            ),
            !(!old(self).stream.state.stopped && old(self).stream.state.started)
                ==> final(self).stream == old(self).stream,
            final(self).url == old(self).url,
    {
        if !self.stream.stopped() && self.stream.started() {
            self.stream.set_started(false);
        }
    }

    /// Whether the worker's loop is to run.
    pub fn running(&self) -> (r: bool)
        ensures
            r == self.stream.state.started,
    {
        self.stream.started()
    }
}

/// The worker of the Entries feed: its stream, and the source its loop reads.
pub struct BcastStreamEntriesWorker {
    pub stream: BcastStreamEntries,
    pub url: String,
}

impl BcastStreamEntriesWorker {
    /// A stopped worker whose source is the default server.
    pub fn new() -> (r: BcastStreamEntriesWorker)
        ensures
            r.stream.state == (BcastState {
                started: false,
                stopped: true,
                status: BcastStatus::Unknown,
                frame: 0,
            }),
            r.stream.data@.len() == 1 && is_blank_entries(r.stream.data@[0]),
            r.url@ == source_of(default_address(), FeedKind::Entries),
    {
        let address = "http://localhost:8080";
        BcastStreamEntriesWorker { stream: BcastStreamEntries::new(), url: source_for(address, FeedKind::Entries) }
    }

    /// Starts the worker on the source `url`, unless its loop may still be running; returns
    /// whether it started, in which case a loop is to be run for it.
    pub fn start(&mut self, url: String) -> (spawn: bool)
        ensures
            spawn == (old(self).stream.state.stopped && !old(self).stream.state.started),
            spawn ==> final(self).stream == old(self).stream.with_bcast_state(
                started_as(old(self).stream.state, true),
            ),
            spawn ==> final(self).url@ == source_of(url@, FeedKind::Entries),
            !spawn ==> final(self).stream == old(self).stream,
            !spawn ==> final(self).url == old(self).url,
    {
        if self.stream.stopped() && !self.stream.started() {
            self.url = source_for(url.as_str(), FeedKind::Entries);
            self.stream.set_started(true);
            true
        } else {
            false
        }
    }

    /// Asks a running worker's loop to end; it ends at its next turn.
    pub fn stop(&mut self)
        ensures
            (!old(self).stream.state.stopped && old(self).stream.state.started)
                ==> final(self).stream == old(self).stream.with_bcast_state(
                started_as(old(self).stream.state, false),
            ),
            !(!old(self).stream.state.stopped && old(self).stream.state.started)
                ==> final(self).stream == old(self).stream,
            final(self).url == old(self).url,
    {
        if !self.stream.stopped() && self.stream.started() {
            self.stream.set_started(false);
        }
    }

    /// Whether the worker's loop is to run.
    pub fn running(&self) -> (r: bool)
        ensures
            r == self.stream.state.started,
    {
        self.stream.started()
    }
}

/// The worker of the Groups feed: its stream, and the source its loop reads.
pub struct BcastStreamGroupsWorker {
    pub stream: BcastStreamGroups,
    pub url: String,
}

impl BcastStreamGroupsWorker {
    /// A stopped worker whose source is the default server.
    pub fn new() -> (r: BcastStreamGroupsWorker)
        ensures
            r.stream.state == (BcastState {
                started: false,
                stopped: true,
                status: BcastStatus::Unknown,
                frame: 0,
            }),
            r.stream.data@.len() == 1 && is_blank_groups(r.stream.data@[0]),
            r.url@ == source_of(default_address(), FeedKind::Groups),
    {
        let address = "http://localhost:8080";
        BcastStreamGroupsWorker { stream: BcastStreamGroups::new(), url: source_for(address, FeedKind::Groups) }
    }

    /// Starts the worker on the source `url`, unless its loop may still be running; returns
    /// whether it started, in which case a loop is to be run for it.
    pub fn start(&mut self, url: String) -> (spawn: bool)
        ensures
            spawn == (old(self).stream.state.stopped && !old(self).stream.state.started),
            spawn ==> final(self).stream == old(self).stream.with_bcast_state(
                started_as(old(self).stream.state, true),
            ),
            spawn ==> final(self).url@ == source_of(url@, FeedKind::Groups),
            !spawn ==> final(self).stream == old(self).stream,
            !spawn ==> final(self).url == old(self).url,
    {
        if self.stream.stopped() && !self.stream.started() {
            self.url = source_for(url.as_str(), FeedKind::Groups);
            self.stream.set_started(true);
            true
        } else {
            false
        }
    }

    /// Asks a running worker's loop to end; it ends at its next turn.
    pub fn stop(&mut self)
        ensures
            (!old(self).stream.state.stopped && old(self).stream.state.started)
                ==> final(self).stream == old(self).stream.with_bcast_state(
                started_as(old(self).stream.state, false),
            ),
            !(!old(self).stream.state.stopped && old(self).stream.state.started)
                ==> final(self).stream == old(self).stream,
            final(self).url == old(self).url,
    {
        if !self.stream.stopped() && self.stream.started() {
            self.stream.set_started(false);
        }
    }

    /// Whether the worker's loop is to run.
    pub fn running(&self) -> (r: bool)
        ensures
            r == self.stream.state.started,
    {
        self.stream.started()
    }
}

/// The worker of the ResultsIndv feed: its stream, and the source its loop reads.
pub struct BcastStreamResultsIndvWorker {
    pub stream: BcastStreamResultsIndv,
    pub url: String,
}

impl BcastStreamResultsIndvWorker {
    /// A stopped worker whose source is the default server.
    pub fn new() -> (r: BcastStreamResultsIndvWorker)
        ensures
            r.stream.state == (BcastState {
                started: false,
                stopped: true,
                status: BcastStatus::Unknown,
                frame: 0,
            }),
            r.stream.data@.len() == 1 && is_blank_results_indv(r.stream.data@[0]),
            r.url@ == source_of(default_address(), FeedKind::ResultsIndv),
    {
        let address = "http://localhost:8080";
        BcastStreamResultsIndvWorker { stream: BcastStreamResultsIndv::new(), url: source_for(address, FeedKind::ResultsIndv) }
    }

    /// Starts the worker on the source `url`, unless its loop may still be running; returns
    /// whether it started, in which case a loop is to be run for it.
    pub fn start(&mut self, url: String) -> (spawn: bool)
        ensures
            spawn == (old(self).stream.state.stopped && !old(self).stream.state.started),
            spawn ==> final(self).stream == old(self).stream.with_bcast_state(
                started_as(old(self).stream.state, true),
            ),
            spawn ==> final(self).url@ == source_of(url@, FeedKind::ResultsIndv),
            !spawn ==> final(self).stream == old(self).stream,
            !spawn ==> final(self).url == old(self).url,
    {
        if self.stream.stopped() && !self.stream.started() {
            self.url = source_for(url.as_str(), FeedKind::ResultsIndv);
            self.stream.set_started(true);
            true
        } else {
            false
        }
    }

    /// Asks a running worker's loop to end; it ends at its next turn.
    pub fn stop(&mut self)
        ensures
            (!old(self).stream.state.stopped && old(self).stream.state.started)
                ==> final(self).stream == old(self).stream.with_bcast_state(
                started_as(old(self).stream.state, false),
            ),
            !(!old(self).stream.state.stopped && old(self).stream.state.started)
                ==> final(self).stream == old(self).stream,
            final(self).url == old(self).url,
    {
        if !self.stream.stopped() && self.stream.started() {
            self.stream.set_started(false);
        }
    }

    /// Whether the worker's loop is to run.
    pub fn running(&self) -> (r: bool)
        ensures
            r == self.stream.state.started,
    {
        self.stream.started()
    }
}

/// The worker of the ResultsTeam feed: its stream, and the source its loop reads.
pub struct BcastStreamResultsTeamWorker {
    pub stream: BcastStreamResultsTeam,
    pub url: String,
}

impl BcastStreamResultsTeamWorker {
    /// A stopped worker whose source is the default server.
    pub fn new() -> (r: BcastStreamResultsTeamWorker)
        ensures
            r.stream.state == (BcastState {
                started: false,
                stopped: true,
                status: BcastStatus::Unknown,
                frame: 0,
            }),
            r.stream.data@.len() == 1 && is_blank_results_team(r.stream.data@[0]),
            r.url@ == source_of(default_address(), FeedKind::ResultsTeam),
    {
        let address = "http://localhost:8080";
        BcastStreamResultsTeamWorker { stream: BcastStreamResultsTeam::new(), url: source_for(address, FeedKind::ResultsTeam) }
    }

    /// Starts the worker on the source `url`, unless its loop may still be running; returns
    /// whether it started, in which case a loop is to be run for it.
    pub fn start(&mut self, url: String) -> (spawn: bool)
        ensures
            spawn == (old(self).stream.state.stopped && !old(self).stream.state.started),
            spawn ==> final(self).stream == old(self).stream.with_bcast_state(
                started_as(old(self).stream.state, true),
            ),
            spawn ==> final(self).url@ == source_of(url@, FeedKind::ResultsTeam),
            !spawn ==> final(self).stream == old(self).stream,
            !spawn ==> final(self).url == old(self).url,
    {
        if self.stream.stopped() && !self.stream.started() {
            self.url = source_for(url.as_str(), FeedKind::ResultsTeam);
            self.stream.set_started(true);
            true
        } else {
            false
        }
    }

    /// Asks a running worker's loop to end; it ends at its next turn.
    pub fn stop(&mut self)
        ensures
            (!old(self).stream.state.stopped && old(self).stream.state.started)
                ==> final(self).stream == old(self).stream.with_bcast_state(
                started_as(old(self).stream.state, false),
            ),
            !(!old(self).stream.state.stopped && old(self).stream.state.started)
                ==> final(self).stream == old(self).stream,
            final(self).url == old(self).url,
    {
        if !self.stream.stopped() && self.stream.started() {
            self.stream.set_started(false);
        }
    }

    /// Whether the worker's loop is to run.
    pub fn running(&self) -> (r: bool)
        ensures
            r == self.stream.state.started,
    {
        self.stream.started()
    }
}

} // verus!
