//! The records that the broadcast feeds carry, and the state of each feed's stream.
use crate::payload::{
    empty_string_value, null_to_empty_string, null_value, rename_type_key, replaced, strip_bom,
    type_key, type_key_renamed, without_bom,
};
use crate::ride::Ride;
use crate::facade::BcastMethod;
use vstd::prelude::*;
use vstd::slice::slice_to_vec;
use vstd::string::StringExecFns;

pub mod worker;

verus! {

/// The text that stands in a string field before a feed has delivered anything.
pub open spec fn placeholder() -> Seq<char> {
    "--"@
}

/// The primary feed: the followed rider's live telemetry.
#[derive(Clone, Debug)]
pub struct Focus {
    pub name: String,
    pub country: String,
    pub team: String,
    pub team_code: String,
    pub power: u32,
    pub avg_power: u32,
    pub nrm_power: u32,
    pub max_power: u32,
    pub cadence: u32,
    pub avg_cadence: u32,
    pub max_cadence: u32,
    pub heartrate: u32,
    pub avg_heartrate: u32,
    pub max_heartrate: u32,
    pub time: u32,
    pub distance: u32,
    pub height: u32,
    pub speed: u32,
    pub tss: u32,
    pub calories: u32,
    pub draft: u32,
    pub wind_speed: u32,
    pub wind_angle: u32,
    pub slope: i32,
    pub event_laps_total: u32,
    pub event_laps_done: i32,
    pub event_distance_total: u32,
    pub event_distance_done: u32,
    pub event_distance_to_next_location: u32,
    pub event_next_location: u32,
    pub event_position: u32,
}

/// `r` is the Focus record that stands before any data came.
pub open spec fn is_blank_focus(r: Focus) -> bool {
    &&& r.name@ == placeholder()
    &&& r.country@ == placeholder()
    &&& r.team@ == placeholder()
    &&& r.team_code@ == placeholder()
    &&& r.power == 0
    &&& r.avg_power == 0
    &&& r.nrm_power == 0
    &&& r.max_power == 0
    &&& r.cadence == 0
    &&& r.avg_cadence == 0
    &&& r.max_cadence == 0
    &&& r.heartrate == 0
    &&& r.avg_heartrate == 0
    &&& r.max_heartrate == 0
    &&& r.time == 0
    &&& r.distance == 0
    &&& r.height == 0
    &&& r.speed == 0
    &&& r.tss == 0
    &&& r.calories == 0
    &&& r.draft == 0
    &&& r.wind_speed == 0
    &&& r.wind_angle == 0
    &&& r.slope == 0
    &&& r.event_laps_total == 0
    &&& r.event_laps_done == 0
    &&& r.event_distance_total == 0
    &&& r.event_distance_done == 0
    &&& r.event_distance_to_next_location == 0
    &&& r.event_next_location == 0
    &&& r.event_position == 0
}

impl Focus {
    /// A record with placeholder text and zeros, shown until the feed delivers.
    pub fn new() -> (r: Focus)
        ensures
            is_blank_focus(r),
    {
        Focus {
            name: "--".to_owned(),
            country: "--".to_owned(),
            team: "--".to_owned(),
            team_code: "--".to_owned(),
            power: 0,
            avg_power: 0,
            nrm_power: 0,
            max_power: 0,
            cadence: 0,
            avg_cadence: 0,
            max_cadence: 0,
            heartrate: 0,
            avg_heartrate: 0,
            max_heartrate: 0,
            time: 0,
            distance: 0,
            height: 0,
            speed: 0,
            tss: 0,
            calories: 0,
            draft: 0,
            wind_speed: 0,
            wind_angle: 0,
            slope: 0,
            event_laps_total: 0,
            event_laps_done: 0,
            event_distance_total: 0,
            event_distance_done: 0,
            event_distance_to_next_location: 0,
            event_next_location: 0,
            event_position: 0,
        }
    }
}

/// A rider near the followed one.
#[derive(Clone, Debug)]
pub struct Nearest {
    pub name: String,
    pub country: String,
    pub team: String,
    pub team_code: String,
    pub speed: u32,
    pub time_gap: i32,
    pub position: u32,
    pub distance: u32,
    pub is_eliminated: bool,
}

/// `r` is the Nearest record that stands before any data came.
pub open spec fn is_blank_nearest(r: Nearest) -> bool {
    &&& r.name@ == placeholder()
    &&& r.country@ == placeholder()
    &&& r.team@ == placeholder()
    &&& r.team_code@ == placeholder()
    &&& r.speed == 0
    &&& r.time_gap == 0
    &&& r.position == 0
    &&& r.distance == 0
    &&& !r.is_eliminated
}

impl Nearest {
    /// A record with placeholder text and zeros, shown until the feed delivers.
    pub fn new() -> (r: Nearest)
        ensures
            is_blank_nearest(r),
    {
        Nearest {
            name: "--".to_owned(),
            country: "--".to_owned(),
            team: "--".to_owned(),
            team_code: "--".to_owned(),
            speed: 0,
            time_gap: 0,
            position: 0,
            distance: 0,
            is_eliminated: false,
        }
    }
}

/// The event being ridden.
#[derive(Clone, Debug)]
pub struct Event {
    pub name: String,
    pub route: String,
    pub laps: u32,
    pub distance: u32,
    pub height: u32,
    pub locations: u32,
    pub type_: String,
}

/// `r` is the Event record that stands before any data came.
pub open spec fn is_blank_event(r: Event) -> bool {
    &&& r.name@ == placeholder()
    &&& r.route@ == placeholder()
    &&& r.laps == 0
    &&& r.distance == 0
    &&& r.height == 0
    &&& r.locations == 0
    &&& r.type_@ == placeholder()
}

impl Event {
    /// A record with placeholder text and zeros, shown until the feed delivers.
    pub fn new() -> (r: Event)
        ensures
            is_blank_event(r),
    {
        Event {
            name: "--".to_owned(),
            route: "--".to_owned(),
            laps: 0,
            distance: 0,
            height: 0,
            locations: 0,
            type_: "--".to_owned(),
        }
    }
}

/// A rider on the entry list.
#[derive(Clone, Debug)]
pub struct Entries {
    pub bib_num: u32,
    pub name: String,
    pub country: String,
    pub team: String,
    pub team_code: String,
}

/// `r` is the Entries record that stands before any data came.
pub open spec fn is_blank_entries(r: Entries) -> bool {
    &&& r.bib_num == 0
    &&& r.name@ == placeholder()
    &&& r.country@ == placeholder()
    &&& r.team@ == placeholder()
    &&& r.team_code@ == placeholder()
}

impl Entries {
    /// A record with placeholder text and zeros, shown until the feed delivers.
    pub fn new() -> (r: Entries)
        ensures
            is_blank_entries(r),
    {
        Entries {
            bib_num: 0,
            name: "--".to_owned(),
            country: "--".to_owned(),
            team: "--".to_owned(),
            team_code: "--".to_owned(),
        }
    }
}

/// A group of riders on the road.
#[derive(Clone, Debug)]
pub struct Groups {
    pub group_num1: u32,
    pub group_num2: u32,
    pub leader: String,
    pub size: u32,
    pub time_gap1: i32,
    pub time_gap2: i32,
    pub is_peloton: bool,
}

/// `r` is the Groups record that stands before any data came.
pub open spec fn is_blank_groups(r: Groups) -> bool {
    &&& r.group_num1 == 0
    &&& r.group_num2 == 0
    &&& r.leader@ == placeholder()
    &&& r.size == 0
    &&& r.time_gap1 == 0
    &&& r.time_gap2 == 0
    &&& !r.is_peloton
}

impl Groups {
    /// A record with placeholder text and zeros, shown until the feed delivers.
    pub fn new() -> (r: Groups)
        ensures
            is_blank_groups(r),
    {
        Groups {
            group_num1: 0,
            group_num2: 0,
            leader: "--".to_owned(),
            size: 0,
            time_gap1: 0,
            time_gap2: 0,
            is_peloton: false,
        }
    }
}

/// A rider's result at a timing location.
#[derive(Clone, Debug)]
pub struct ResultsIndv {
    pub location: u32,
    pub position: u32,
    pub name: String,
    pub country: String,
    pub team: String,
    pub team_code: String,
    pub points: u32,
    pub points_total: u32,
    pub time: u32,
    pub delta_time: i32,
    pub is_eliminated: bool,
}

/// `r` is the ResultsIndv record that stands before any data came.
pub open spec fn is_blank_results_indv(r: ResultsIndv) -> bool {
    &&& r.location == 0
    &&& r.position == 0
    &&& r.name@ == placeholder()
    &&& r.country@ == placeholder()
    &&& r.team@ == placeholder()
    &&& r.team_code@ == placeholder()
    &&& r.points == 0
    &&& r.points_total == 0
    &&& r.time == 0
    &&& r.delta_time == 0
    &&& !r.is_eliminated
}

impl ResultsIndv {
    /// A record with placeholder text and zeros, shown until the feed delivers.
    pub fn new() -> (r: ResultsIndv)
        ensures
            is_blank_results_indv(r),
    {
        ResultsIndv {
            location: 0,
            position: 0,
            name: "--".to_owned(),
            country: "--".to_owned(),
            team: "--".to_owned(),
            team_code: "--".to_owned(),
            points: 0,
            points_total: 0,
            time: 0,
            delta_time: 0,
            is_eliminated: false,
        }
    }
}

/// A team's result at a timing location; times are in milliseconds.
#[derive(Clone, Debug)]
pub struct ResultsTeam {
    pub location: u32,
    pub position: u32,
    pub team: String,
    pub team_code: String,
    pub points_total: u32,
    pub time_ms: i64,
    pub delta_time_ms: i64,
}

/// `r` is the ResultsTeam record that stands before any data came.
pub open spec fn is_blank_results_team(r: ResultsTeam) -> bool {
    &&& r.location == 0
    &&& r.position == 0
    &&& r.team@ == placeholder()
    &&& r.team_code@ == placeholder()
    &&& r.points_total == 0
    &&& r.time_ms == 0
    &&& r.delta_time_ms == 0
}

impl ResultsTeam {
    /// A record with placeholder text and zeros, shown until the feed delivers.
    pub fn new() -> (r: ResultsTeam)
        ensures
            is_blank_results_team(r),
    {
        ResultsTeam {
            location: 0,
            position: 0,
            team: "--".to_owned(),
            team_code: "--".to_owned(),
            points_total: 0,
            time_ms: 0,
            delta_time_ms: 0,
        }
    }
}

/// A record that can be copied exactly, for handing a snapshot out of its stream.
pub trait FeedRecord: Sized {
    fn duplicate(&self) -> (r: Self)
        ensures
            r == *self,
    ;
}

/// An exact copy of every record of `v`.
pub fn duplicate_all<T: FeedRecord>(v: &Vec<T>) -> (r: Vec<T>)
    ensures
        r@ == v@,
{
    let mut out: Vec<T> = Vec::new();
    let mut i: usize = 0;
    while i < v.len()
        invariant
            i <= v@.len(),
            out@ == v@.subrange(0, i as int),
        decreases v@.len() - i,
    {
        out.push(v[i].duplicate());
        i = i + 1;
        assert(out@ =~= v@.subrange(0, i as int));
    }
    assert(v@.subrange(0, v@.len() as int) =~= v@);
    out
}

impl FeedRecord for Focus {
    fn duplicate(&self) -> (r: Focus) {
        Focus {
            name: self.name.clone(),
            country: self.country.clone(),
            team: self.team.clone(),
            team_code: self.team_code.clone(),
            power: self.power,
            avg_power: self.avg_power,
            nrm_power: self.nrm_power,
            max_power: self.max_power,
            cadence: self.cadence,
            avg_cadence: self.avg_cadence,
            max_cadence: self.max_cadence,
            heartrate: self.heartrate,
            avg_heartrate: self.avg_heartrate,
            max_heartrate: self.max_heartrate,
            time: self.time,
            distance: self.distance,
            height: self.height,
            speed: self.speed,
            tss: self.tss,
            calories: self.calories,
            draft: self.draft,
            wind_speed: self.wind_speed,
            wind_angle: self.wind_angle,
            slope: self.slope,
            event_laps_total: self.event_laps_total,
            event_laps_done: self.event_laps_done,
            event_distance_total: self.event_distance_total,
            event_distance_done: self.event_distance_done,
            event_distance_to_next_location: self.event_distance_to_next_location,
            event_next_location: self.event_next_location,
            event_position: self.event_position,
        }
    }
}

impl FeedRecord for Nearest {
    fn duplicate(&self) -> (r: Nearest) {
        Nearest {
            name: self.name.clone(),
            country: self.country.clone(),
            team: self.team.clone(),
            team_code: self.team_code.clone(),
            speed: self.speed,
            time_gap: self.time_gap,
            position: self.position,
            distance: self.distance,
            is_eliminated: self.is_eliminated,
        }
    }
}

impl FeedRecord for Event {
    fn duplicate(&self) -> (r: Event) {
        Event {
            name: self.name.clone(),
            route: self.route.clone(),
            laps: self.laps,
            distance: self.distance,
            height: self.height,
            locations: self.locations,
            type_: self.type_.clone(),
        }
    }
}

impl FeedRecord for Entries {
    fn duplicate(&self) -> (r: Entries) {
        Entries {
            bib_num: self.bib_num,
            name: self.name.clone(),
            country: self.country.clone(),
            team: self.team.clone(),
            team_code: self.team_code.clone(),
        }
    }
}

impl FeedRecord for Groups {
    fn duplicate(&self) -> (r: Groups) {
        Groups {
            group_num1: self.group_num1,
            group_num2: self.group_num2,
            leader: self.leader.clone(),
            size: self.size,
            time_gap1: self.time_gap1,
            time_gap2: self.time_gap2,
            is_peloton: self.is_peloton,
        }
    }
}

impl FeedRecord for ResultsIndv {
    fn duplicate(&self) -> (r: ResultsIndv) {
        ResultsIndv {
            location: self.location,
            position: self.position,
            name: self.name.clone(),
            country: self.country.clone(),
            team: self.team.clone(),
            team_code: self.team_code.clone(),
            points: self.points,
            points_total: self.points_total,
            time: self.time,
            delta_time: self.delta_time,
            is_eliminated: self.is_eliminated,
        }
    }
}

impl FeedRecord for ResultsTeam {
    fn duplicate(&self) -> (r: ResultsTeam) {
        ResultsTeam {
            location: self.location,
            position: self.position,
            team: self.team.clone(),
            team_code: self.team_code.clone(),
            points_total: self.points_total,
            time_ms: self.time_ms,
            delta_time_ms: self.delta_time_ms,
        }
    }
}

/// Health of a feed as its last fetch left it.
#[derive(Clone, Copy, Debug, PartialEq, Eq, Structural)]
pub enum BcastStatus {
    Unknown,
    Healthy,
    Unhealthy,
}

/// Lifecycle of a feed's stream: whether its loop is to run, its health, and how many fetches
/// succeeded (the frame count, by which readers tell a live feed from a stale one).
#[derive(Clone, Copy, Debug, PartialEq, Eq, Structural)]
pub struct BcastState {
    pub started: bool,
    pub stopped: bool,
    pub status: BcastStatus,
    pub frame: u64,
}

/// The frame count after one more successful fetch; it wraps to zero past the largest value.
pub open spec fn next_frame(frame: u64) -> u64 {
    if frame == u64::MAX {
        0
    } else {
        (frame + 1) as u64
    }
}

/// `s` with its loop marked to run or not.
pub open spec fn started_as(s: BcastState, started: bool) -> BcastState {
    BcastState { started, stopped: !started, status: s.status, frame: s.frame }
}

/// `s` after a fetch that left the feed with `status`: a success also counts a frame.
pub open spec fn with_status(s: BcastState, status: BcastStatus) -> BcastState {
    BcastState {
        started: s.started,
        stopped: s.stopped,
        status,
        frame: if status == BcastStatus::Healthy {
            next_frame(s.frame)
        } else {
            s.frame
        },
    }
}

impl BcastState {
    /// A stream that was never started.
    pub fn new() -> (r: BcastState)
        ensures
            r == (BcastState { started: false, stopped: true, status: BcastStatus::Unknown, frame: 0 }),
    {
        BcastState { started: false, stopped: true, status: BcastStatus::Unknown, frame: 0 }
    }

    /// Marks the loop to run or not.
    pub fn set_started(&mut self, started: bool)
        ensures
            *final(self) == started_as(*old(self), started),
    {
        self.started = started;
        self.stopped = !started;
    }

    /// Records the health that a fetch left; a success counts a frame.
    pub fn update_state(&mut self, status: BcastStatus)
        ensures
            *final(self) == with_status(*old(self), status),
    {
        if status == BcastStatus::Healthy {
            self.frame = if self.frame == u64::MAX {
                0
            } else {
                self.frame + 1
            };
        }
        self.status = status;
    }
}

/// The operations every feed stream offers on its lifecycle.
pub trait BcastStreamBase: Sized {
    spec fn bcast_state(&self) -> BcastState;

    /// This stream with its lifecycle replaced by `s` and all else kept.
    spec fn with_bcast_state(&self, s: BcastState) -> Self;

    fn set_started(&mut self, started: bool)
        ensures
            *final(self) == old(self).with_bcast_state(started_as(old(self).bcast_state(), started)),
    ;

    fn started(&self) -> (r: bool)
        ensures
            r == self.bcast_state().started,
    ;

    fn stopped(&self) -> (r: bool)
        ensures
            r == self.bcast_state().stopped,
    ;
}

/// How long a loop waits after a failed fetch before it tries again, in milliseconds.
pub const RETRY_INTERVAL_MS: u64 = 1000;

/// How long a loop on the file source waits for a change of its file, in milliseconds.
pub const WATCH_TIMEOUT_MS: u64 = 1000;

/// The source address used until another is given.
pub open spec fn default_address() -> Seq<char> {
    "http://localhost:8080"@
}

/// The broadcast feeds.
#[derive(Clone, Copy, Debug, PartialEq, Eq, Structural)]
pub enum FeedKind {
    Focus,
    Nearest,
    Event,
    Entries,
    Groups,
    ResultsIndv,
    ResultsTeam,
}

/// Whether `address` names a directory through the `file://` scheme.
pub open spec fn is_file_address(address: Seq<char>) -> bool {
    address.len() >= 7 && address.subrange(0, 7) == "file://"@
}

/// Where the feed `kind` is read from, for the source `address`: a file in the directory
/// that a `file://` address names, or else a path under the server's address.
pub open spec fn source_of(address: Seq<char>, kind: FeedKind) -> Seq<char> {
    if is_file_address(address) {
        address.subrange(7, address.len() as int) + kind.spec_file_name()
    } else {
        address + kind.spec_http_path()
    }
}

/// The payload of feed `kind` as read through `method`, made ready for parsing.
pub open spec fn normalized(kind: FeedKind, method: BcastMethod, raw: Seq<u8>) -> Seq<u8> {
    let body = if method == BcastMethod::File {
        without_bom(raw)
    } else {
        raw
    };
    match kind {
        FeedKind::Event => replaced(body, type_key(), type_key_renamed()),
        FeedKind::Groups | FeedKind::ResultsIndv | FeedKind::ResultsTeam => replaced(
            body,
            null_value(),
            empty_string_value(),
        ),
        _ => body,
    }
}

impl FeedKind {
    /// The path of the feed under the server's address.
    pub open spec fn spec_http_path(self) -> Seq<char> {
        match self {
            FeedKind::Focus => "/bcast/focus"@,
            FeedKind::Nearest => "/bcast/nearest"@,
            FeedKind::Event => "/bcast/event"@,
            FeedKind::Entries => "/bcast/entries"@,
            FeedKind::Groups => "/bcast/groups"@,
            FeedKind::ResultsIndv => "/bcast/resultsIndv"@,
            FeedKind::ResultsTeam => "/bcast/resultsTeam"@,
        }
    }

    /// The name of the feed's file in the source directory.
    pub open spec fn spec_file_name(self) -> Seq<char> {
        match self {
            FeedKind::Focus => "/focus.json"@,
            FeedKind::Nearest => "/nearest.json"@,
            FeedKind::Event => "/event.json"@,
            FeedKind::Entries => "/entries.json"@,
            FeedKind::Groups => "/groups.json"@,
            FeedKind::ResultsIndv => "/resultsIndv.json"@,
            FeedKind::ResultsTeam => "/resultsTeam.json"@,
        }
    }

    /// How long a loop waits after a successful fetch, in milliseconds.
    pub open spec fn spec_poll_interval_ms(self) -> u64 {
        match self {
            FeedKind::Focus => 250,
            FeedKind::Nearest => 250,
            FeedKind::Event => 1000,
            FeedKind::Entries => 1000,
            FeedKind::Groups => 1000,
            FeedKind::ResultsIndv => 1000,
            FeedKind::ResultsTeam => 1000,
        }
    }

    /// The path of the feed under the server's address.
    pub fn http_path(self) -> (r: &'static str)
        ensures
            r@ == self.spec_http_path(),
    {
        match self {
            FeedKind::Focus => "/bcast/focus",
            FeedKind::Nearest => "/bcast/nearest",
            FeedKind::Event => "/bcast/event",
            FeedKind::Entries => "/bcast/entries",
            FeedKind::Groups => "/bcast/groups",
            FeedKind::ResultsIndv => "/bcast/resultsIndv",
            FeedKind::ResultsTeam => "/bcast/resultsTeam",
        }
    }

    /// The name of the feed's file in the source directory.
    pub fn file_name(self) -> (r: &'static str)
        ensures
            r@ == self.spec_file_name(),
    {
        match self {
            FeedKind::Focus => "/focus.json",
            FeedKind::Nearest => "/nearest.json",
            FeedKind::Event => "/event.json",
            FeedKind::Entries => "/entries.json",
            FeedKind::Groups => "/groups.json",
            FeedKind::ResultsIndv => "/resultsIndv.json",
            FeedKind::ResultsTeam => "/resultsTeam.json",
        }
    }

    /// How long a loop waits after a successful fetch, in milliseconds.
    pub fn poll_interval_ms(self) -> (r: u64)
        ensures
            r == self.spec_poll_interval_ms(),
    {
        match self {
            FeedKind::Focus => 250,
            FeedKind::Nearest => 250,
            FeedKind::Event => 1000,
            FeedKind::Entries => 1000,
            FeedKind::Groups => 1000,
            FeedKind::ResultsIndv => 1000,
            FeedKind::ResultsTeam => 1000,
        }
    }
}

/// Whether `address` begins with `file://`.
pub fn is_file_address_exec(address: &str) -> (r: bool)
    ensures
        r == is_file_address(address@),
{
    let scheme = "file://";
    proof {
        reveal_strlit("file://");
    }
    let n = address.unicode_len();
    if n < 7 {
        return false;
    }
    let mut i: usize = 0;
    while i < 7
        invariant
            i <= 7,
            n == address@.len(),
            n >= 7,
            scheme@ == "file://"@,
            scheme@.len() == 7,
            forall|k: int| 0 <= k < i ==> address@[k] == scheme@[k],
        decreases 7 - i,
    {
        if address.get_char(i) != scheme.get_char(i) {
            assert(address@.subrange(0, 7)[i as int] != scheme@[i as int]);
            return false;
        }
        i = i + 1;
    }
    assert(address@.subrange(0, 7) =~= scheme@);
    true
}

/// Where the feed `kind` is read from, for the source `address`.
pub fn source_for(address: &str, kind: FeedKind) -> (r: String)
    ensures
        r@ == source_of(address@, kind),
{
    if is_file_address_exec(address) {
        let n = address.unicode_len();
        let mut path = address.substring_char(7, n).to_owned();
        path.append(kind.file_name());
        path
    } else {
        let mut path = address.to_owned();
        path.append(kind.http_path());
        path
    }
}

/// Makes the payload of feed `kind`, read through `method`, ready for parsing: the file source
/// drops a leading byte-order mark, the event feed renames its reserved `"type"` key, and the
/// group and result feeds send an empty string where they sent a null.
pub fn normalize_payload(kind: FeedKind, method: BcastMethod, raw: &[u8]) -> (r: Vec<u8>)
    ensures
        r@ == normalized(kind, method, raw@),
{
    let body = if method == BcastMethod::File {
        strip_bom(raw)
    } else {
        slice_to_vec(raw)
    };
    match kind {
        FeedKind::Event => rename_type_key(body.as_slice()),
        FeedKind::Groups | FeedKind::ResultsIndv | FeedKind::ResultsTeam => null_to_empty_string(
            body.as_slice(),
        ),
        _ => body,
    }
}

/// The records of a list feed after a fetch: the fetched list when it holds any, else the
/// records from before.
pub open spec fn published_list<T>(before: Seq<T>, fetched: Option<Vec<T>>) -> Seq<T> {
    match fetched {
        Some(list) => if list@.len() > 0 {
            list@
        } else {
            before
        },
        None => before,
    }
}

/// The record of a single-record feed after a fetch: the first fetched record when there is
/// one, else the record from before.
pub open spec fn published_record<T>(before: T, fetched: Option<Vec<T>>) -> T {
    match fetched {
        Some(list) => if list@.len() > 0 {
            list@[0]
        } else {
            before
        },
        None => before,
    }
}

/// The lifecycle after a fetch: healthy and one frame on when it parsed, unhealthy otherwise.
pub open spec fn state_after_fetch<T>(s: BcastState, fetched: Option<Vec<T>>) -> BcastState {
    match fetched {
        Some(_) => with_status(s, BcastStatus::Healthy),
        None => with_status(s, BcastStatus::Unhealthy),
    }
}

/// How long the loop waits after a fetch of feed `kind`.
pub open spec fn wait_after_fetch<T>(kind: FeedKind, fetched: Option<Vec<T>>) -> u64 {
    match fetched {
        Some(_) => kind.spec_poll_interval_ms(),
        None => RETRY_INTERVAL_MS,
    }
}

/// The lifecycle once the loop has ended: not running, health unknown, frames kept.
pub open spec fn finished(s: BcastState) -> BcastState {
    BcastState { started: false, stopped: true, status: BcastStatus::Unknown, frame: s.frame }
}

/// Takes in one fetch of a list feed: `None` for a fetch or parse that failed, else the
/// parsed records. Returns how long the loop waits before the next fetch.
fn take_list<T>(state: &mut BcastState, data: &mut Vec<T>, fetched: Option<Vec<T>>, kind: FeedKind) -> (wait_ms: u64)
    ensures
        *final(state) == state_after_fetch(*old(state), fetched),
        final(data)@ == published_list(old(data)@, fetched),
        wait_ms == wait_after_fetch(kind, fetched),
{
    match fetched {
        Some(list) => {
            state.update_state(BcastStatus::Healthy);
            if list.len() > 0 {
                *data = list;
            }
            kind.poll_interval_ms()
        },
        None => {
            state.update_state(BcastStatus::Unhealthy);
            RETRY_INTERVAL_MS
        },
    }
}

/// Takes in one fetch of a single-record feed, as `take_list` does.
fn take_record<T>(state: &mut BcastState, data: &mut T, fetched: Option<Vec<T>>, kind: FeedKind) -> (wait_ms: u64)
    ensures
        *final(state) == state_after_fetch(*old(state), fetched),
        *final(data) == published_record(*old(data), fetched),
        wait_ms == wait_after_fetch(kind, fetched),
{
    match fetched {
        Some(list) => {
            state.update_state(BcastStatus::Healthy);
            if list.len() > 0 {
                let mut list = list;
                *data = list.remove(0);
            }
            kind.poll_interval_ms()
        },
        None => {
            state.update_state(BcastStatus::Unhealthy);
            RETRY_INTERVAL_MS
        },
    }
}

/// The stream of the Focus feed: its lifecycle and its latest records, and the ride that its samples feed.
pub struct BcastStreamFocus {
    pub state: BcastState,
    pub data: Focus,
    pub ride: Ride,
}

impl BcastStreamBase for BcastStreamFocus {
    open spec fn bcast_state(&self) -> BcastState {
        self.state
    }

    open spec fn with_bcast_state(&self, s: BcastState) -> Self {
        BcastStreamFocus { state: s, data: self.data, ride: self.ride }
    }

    fn set_started(&mut self, started: bool) {
        self.state.set_started(started);
    }

    fn started(&self) -> (r: bool) {
        self.state.started
    }

    fn stopped(&self) -> (r: bool) {
        self.state.stopped
    }
}

impl BcastStreamFocus {
    /// A stream that was never started, holding placeholder records.
    pub fn new() -> (r: BcastStreamFocus)
        ensures
            r.state == (BcastState { started: false, stopped: true, status: BcastStatus::Unknown, frame: 0 }),
            is_blank_focus(r.data),
            r.ride.wf(),
            r.ride.is_reset(),
    {
        let data = Focus::new();
        BcastStreamFocus { state: BcastState::new(), data, ride: Ride::new() }
    }

    /// A copy of the latest records.
    pub fn data(&self) -> (r: Focus)
        ensures
            r == self.data,
    {
        self.data.duplicate()
    }

    /// A copy of the lifecycle.
    pub fn state(&self) -> (r: BcastState)
        ensures
            r == self.state,
    {
        self.state
    }

    /// The ride as the samples so far made it.
    pub fn ride(&self) -> (r: &Ride)
        ensures
            *r == self.ride,
    {
        &self.ride
    }

    /// Takes in one fetch: `None` when fetching or parsing failed, else the parsed records.
    /// After a successful fetch the ride takes in the current sample, which is the sample
    /// from before when the fetch brought none. Returns how long the loop waits before the
    /// next fetch.
    pub fn take_fetch(&mut self, fetched: Option<Vec<Focus>>) -> (wait_ms: u64)
        requires
            old(self).ride.wf(),
        ensures
            final(self).state == state_after_fetch(old(self).state, fetched),
            final(self).data == published_record(old(self).data, fetched),
            fetched is Some ==> Ride::updated(old(self).ride, final(self).ride, final(self).data),
            fetched is None ==> final(self).ride == old(self).ride,
            final(self).ride.wf(),
            wait_ms == wait_after_fetch(FeedKind::Focus, fetched),
    {
        let ok = fetched.is_some();
        let wait_ms = take_record(&mut self.state, &mut self.data, fetched, FeedKind::Focus);
        if ok {
            let sample = self.data.duplicate();
            self.ride.update(sample);
        }
        wait_ms
    }

    /// Marks the loop as ended: not running, health unknown.
    pub fn finish(&mut self)
        ensures
            final(self).state == finished(old(self).state),
            final(self).data == old(self).data,
            final(self).ride == old(self).ride,
    {
        self.state.set_started(false);
        self.state.update_state(BcastStatus::Unknown);
    }
}

/// The stream of the Nearest feed: its lifecycle and its latest records.
pub struct BcastStreamNearest {
    pub state: BcastState,
    pub data: Vec<Nearest>,
}

impl BcastStreamBase for BcastStreamNearest {
    open spec fn bcast_state(&self) -> BcastState {
        self.state
    }

    open spec fn with_bcast_state(&self, s: BcastState) -> Self {
        BcastStreamNearest { state: s, data: self.data }
    }

    fn set_started(&mut self, started: bool) {
        self.state.set_started(started);
    }

    fn started(&self) -> (r: bool) {
        self.state.started
    }

    fn stopped(&self) -> (r: bool) {
        self.state.stopped
    }
}

impl BcastStreamNearest {
    /// A stream that was never started, holding placeholder records.
    pub fn new() -> (r: BcastStreamNearest)
        ensures
            r.state == (BcastState { started: false, stopped: true, status: BcastStatus::Unknown, frame: 0 }),
            r.data@.len() == 1 && is_blank_nearest(r.data@[0]),
    {
        let data = vec![Nearest::new()];
        assert(data@.len() == 1);
        BcastStreamNearest { state: BcastState::new(), data }
    }

    /// A copy of the latest records.
    pub fn data(&self) -> (r: Vec<Nearest>)
        ensures
            r@ == self.data@,
    {
        duplicate_all(&self.data)
    }

    /// A copy of the lifecycle.
    pub fn state(&self) -> (r: BcastState)
        ensures
            r == self.state,
    {
        self.state
    }

    /// Takes in one fetch: `None` when fetching or parsing failed, else the parsed records.
    /// Returns how long the loop waits before the next fetch.
    pub fn take_fetch(&mut self, fetched: Option<Vec<Nearest>>) -> (wait_ms: u64)
        ensures
            final(self).state == state_after_fetch(old(self).state, fetched),
            final(self).data@ == published_list(old(self).data@, fetched),
            wait_ms == wait_after_fetch(FeedKind::Nearest, fetched),
    {
        take_list(&mut self.state, &mut self.data, fetched, FeedKind::Nearest)
    }

    /// Marks the loop as ended: not running, health unknown.
    pub fn finish(&mut self)
        ensures
            final(self).state == finished(old(self).state),
            final(self).data == old(self).data,
    {
        self.state.set_started(false);
        self.state.update_state(BcastStatus::Unknown);
    }
}

/// The stream of the Event feed: its lifecycle and its latest records.
pub struct BcastStreamEvent {
    pub state: BcastState,
    pub data: Event,
}

impl BcastStreamBase for BcastStreamEvent {
    open spec fn bcast_state(&self) -> BcastState {
        self.state
    }

    open spec fn with_bcast_state(&self, s: BcastState) -> Self {
        BcastStreamEvent { state: s, data: self.data }
    }

    fn set_started(&mut self, started: bool) {
        self.state.set_started(started);
    }

    fn started(&self) -> (r: bool) {
        self.state.started
    }

    fn stopped(&self) -> (r: bool) {
        self.state.stopped
    }
}

impl BcastStreamEvent {
    /// A stream that was never started, holding placeholder records.
    pub fn new() -> (r: BcastStreamEvent)
        ensures
            r.state == (BcastState { started: false, stopped: true, status: BcastStatus::Unknown, frame: 0 }),
            is_blank_event(r.data),
    {
        let data = Event::new();
        BcastStreamEvent { state: BcastState::new(), data }
    }

    /// A copy of the latest records.
    pub fn data(&self) -> (r: Event)
        ensures
            r == self.data,
    {
        self.data.duplicate()
    }

    /// A copy of the lifecycle.
    pub fn state(&self) -> (r: BcastState)
        ensures
            r == self.state,
    {
        self.state
    }

    /// Takes in one fetch: `None` when fetching or parsing failed, else the parsed records.
    /// Returns how long the loop waits before the next fetch.
    pub fn take_fetch(&mut self, fetched: Option<Vec<Event>>) -> (wait_ms: u64)
        ensures
            final(self).state == state_after_fetch(old(self).state, fetched),
            final(self).data == published_record(old(self).data, fetched),
            wait_ms == wait_after_fetch(FeedKind::Event, fetched),
    {
        take_record(&mut self.state, &mut self.data, fetched, FeedKind::Event)
    }

    /// Marks the loop as ended: not running, health unknown.
    pub fn finish(&mut self)
        ensures
            final(self).state == finished(old(self).state),
            final(self).data == old(self).data,
    {
        self.state.set_started(false);
        self.state.update_state(BcastStatus::Unknown);
    }
}

/// The stream of the Entries feed: its lifecycle and its latest records.
pub struct BcastStreamEntries {
    pub state: BcastState,
    pub data: Vec<Entries>,
}

impl BcastStreamBase for BcastStreamEntries {
    open spec fn bcast_state(&self) -> BcastState {
        self.state
    }

    open spec fn with_bcast_state(&self, s: BcastState) -> Self {
        BcastStreamEntries { state: s, data: self.data }
    }

    fn set_started(&mut self, started: bool) {
        self.state.set_started(started);
    }

    fn started(&self) -> (r: bool) {
        self.state.started
    }

    fn stopped(&self) -> (r: bool) {
        self.state.stopped
    }
}

impl BcastStreamEntries {
    /// A stream that was never started, holding placeholder records.
    pub fn new() -> (r: BcastStreamEntries)
        ensures
            r.state == (BcastState { started: false, stopped: true, status: BcastStatus::Unknown, frame: 0 }),
            r.data@.len() == 1 && is_blank_entries(r.data@[0]),
    {
        let data = vec![Entries::new()];
        assert(data@.len() == 1);
        BcastStreamEntries { state: BcastState::new(), data }
    }

    /// A copy of the latest records.
    pub fn data(&self) -> (r: Vec<Entries>)
        ensures
            r@ == self.data@,
    {
        duplicate_all(&self.data)
    }

    /// A copy of the lifecycle.
    pub fn state(&self) -> (r: BcastState)
        ensures
            r == self.state,
    {
        self.state
    }

    /// Takes in one fetch: `None` when fetching or parsing failed, else the parsed records.
    /// Returns how long the loop waits before the next fetch.
    pub fn take_fetch(&mut self, fetched: Option<Vec<Entries>>) -> (wait_ms: u64)
        ensures
            final(self).state == state_after_fetch(old(self).state, fetched),
            final(self).data@ == published_list(old(self).data@, fetched),
            wait_ms == wait_after_fetch(FeedKind::Entries, fetched),
    {
        take_list(&mut self.state, &mut self.data, fetched, FeedKind::Entries)
    }

    /// Marks the loop as ended: not running, health unknown.
    pub fn finish(&mut self)
        ensures
            final(self).state == finished(old(self).state),
            final(self).data == old(self).data,
    {
        self.state.set_started(false);
        self.state.update_state(BcastStatus::Unknown);
    }
}

/// The stream of the Groups feed: its lifecycle and its latest records.
pub struct BcastStreamGroups {
    pub state: BcastState,
    pub data: Vec<Groups>,
}

impl BcastStreamBase for BcastStreamGroups {
    open spec fn bcast_state(&self) -> BcastState {
        self.state
    }

    open spec fn with_bcast_state(&self, s: BcastState) -> Self {
        BcastStreamGroups { state: s, data: self.data }
    }

    fn set_started(&mut self, started: bool) {
        self.state.set_started(started);
    }

    fn started(&self) -> (r: bool) {
        self.state.started
    }

    fn stopped(&self) -> (r: bool) {
        self.state.stopped
    }
}

impl BcastStreamGroups {
    /// A stream that was never started, holding placeholder records.
    pub fn new() -> (r: BcastStreamGroups)
        ensures
            r.state == (BcastState { started: false, stopped: true, status: BcastStatus::Unknown, frame: 0 }),
            r.data@.len() == 1 && is_blank_groups(r.data@[0]),
    {
        let data = vec![Groups::new()];
        assert(data@.len() == 1);
        BcastStreamGroups { state: BcastState::new(), data }
    }

    /// A copy of the latest records.
    pub fn data(&self) -> (r: Vec<Groups>)
        ensures
            r@ == self.data@,
    {
        duplicate_all(&self.data)
    }

    /// A copy of the lifecycle.
    pub fn state(&self) -> (r: BcastState)
        ensures
            r == self.state,
    {
        self.state
    }

    /// Takes in one fetch: `None` when fetching or parsing failed, else the parsed records.
    /// Returns how long the loop waits before the next fetch.
    pub fn take_fetch(&mut self, fetched: Option<Vec<Groups>>) -> (wait_ms: u64)
        ensures
            final(self).state == state_after_fetch(old(self).state, fetched),
            final(self).data@ == published_list(old(self).data@, fetched),
            wait_ms == wait_after_fetch(FeedKind::Groups, fetched),
    {
        take_list(&mut self.state, &mut self.data, fetched, FeedKind::Groups)
    }

    /// Marks the loop as ended: not running, health unknown.
    pub fn finish(&mut self)
        ensures
            final(self).state == finished(old(self).state),
            final(self).data == old(self).data,
    {
        self.state.set_started(false);
        self.state.update_state(BcastStatus::Unknown);
    }
}

/// The stream of the ResultsIndv feed: its lifecycle and its latest records.
pub struct BcastStreamResultsIndv {
    pub state: BcastState,
    pub data: Vec<ResultsIndv>,
}

impl BcastStreamBase for BcastStreamResultsIndv {
    open spec fn bcast_state(&self) -> BcastState {
        self.state
    }

    open spec fn with_bcast_state(&self, s: BcastState) -> Self {
        BcastStreamResultsIndv { state: s, data: self.data }
    }

    fn set_started(&mut self, started: bool) {
        self.state.set_started(started);
    }

    fn started(&self) -> (r: bool) {
        self.state.started
    }

    fn stopped(&self) -> (r: bool) {
        self.state.stopped
    }
}

impl BcastStreamResultsIndv {
    /// A stream that was never started, holding placeholder records.
    pub fn new() -> (r: BcastStreamResultsIndv)
        ensures
            r.state == (BcastState { started: false, stopped: true, status: BcastStatus::Unknown, frame: 0 }),
            r.data@.len() == 1 && is_blank_results_indv(r.data@[0]),
    {
        let data = vec![ResultsIndv::new()];
        assert(data@.len() == 1);
        BcastStreamResultsIndv { state: BcastState::new(), data }
    }

    /// A copy of the latest records.
    pub fn data(&self) -> (r: Vec<ResultsIndv>)
        ensures
            r@ == self.data@,
    {
        duplicate_all(&self.data)
    }

    /// A copy of the lifecycle.
    pub fn state(&self) -> (r: BcastState)
        ensures
            r == self.state,
    {
        self.state
    }

    /// Takes in one fetch: `None` when fetching or parsing failed, else the parsed records.
    /// Returns how long the loop waits before the next fetch.
    pub fn take_fetch(&mut self, fetched: Option<Vec<ResultsIndv>>) -> (wait_ms: u64)
        ensures
            final(self).state == state_after_fetch(old(self).state, fetched),
            final(self).data@ == published_list(old(self).data@, fetched),
            wait_ms == wait_after_fetch(FeedKind::ResultsIndv, fetched),
    {
        take_list(&mut self.state, &mut self.data, fetched, FeedKind::ResultsIndv)
    }

    /// Marks the loop as ended: not running, health unknown.
    pub fn finish(&mut self)
        ensures
            final(self).state == finished(old(self).state),
            final(self).data == old(self).data,
    {
        self.state.set_started(false);
        self.state.update_state(BcastStatus::Unknown);
    }
}

/// The stream of the ResultsTeam feed: its lifecycle and its latest records.
pub struct BcastStreamResultsTeam {
    pub state: BcastState,
    pub data: Vec<ResultsTeam>,
}

impl BcastStreamBase for BcastStreamResultsTeam {
    open spec fn bcast_state(&self) -> BcastState {
        self.state
    }

    open spec fn with_bcast_state(&self, s: BcastState) -> Self {
        BcastStreamResultsTeam { state: s, data: self.data }
    }

    fn set_started(&mut self, started: bool) {
        self.state.set_started(started);
    }

    fn started(&self) -> (r: bool) {
        self.state.started
    }

    fn stopped(&self) -> (r: bool) {
        self.state.stopped
    }
}

impl BcastStreamResultsTeam {
    /// A stream that was never started, holding placeholder records.
    pub fn new() -> (r: BcastStreamResultsTeam)
        ensures
            r.state == (BcastState { started: false, stopped: true, status: BcastStatus::Unknown, frame: 0 }),
            r.data@.len() == 1 && is_blank_results_team(r.data@[0]),
    {
        let data = vec![ResultsTeam::new()];
        assert(data@.len() == 1);
        BcastStreamResultsTeam { state: BcastState::new(), data }
    }

    /// A copy of the latest records.
    pub fn data(&self) -> (r: Vec<ResultsTeam>)
        ensures
            r@ == self.data@,
    {
        duplicate_all(&self.data)
    }

    /// A copy of the lifecycle.
    pub fn state(&self) -> (r: BcastState)
        ensures
            r == self.state,
    {
        self.state
    }

    /// Takes in one fetch: `None` when fetching or parsing failed, else the parsed records.
    /// Returns how long the loop waits before the next fetch.
    pub fn take_fetch(&mut self, fetched: Option<Vec<ResultsTeam>>) -> (wait_ms: u64)
        ensures
            final(self).state == state_after_fetch(old(self).state, fetched),
            final(self).data@ == published_list(old(self).data@, fetched),
            wait_ms == wait_after_fetch(FeedKind::ResultsTeam, fetched),
    {
        take_list(&mut self.state, &mut self.data, fetched, FeedKind::ResultsTeam)
    }

    /// Marks the loop as ended: not running, health unknown.
    pub fn finish(&mut self)
        ensures
            final(self).state == finished(old(self).state),
            final(self).data == old(self).data,
    {
        self.state.set_started(false);
        self.state.update_state(BcastStatus::Unknown);
    }
}

} // verus!
