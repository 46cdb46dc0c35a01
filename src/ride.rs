//! Ride analytics: metrics accumulated from the focus feed, and the time spent in each
//! heart-rate and power zone.
//!
//! Speeds are kept in the broadcast's own unit, 275 of which make one km/h; distances in
//! metres; power per body weight in thousandths of a watt per kilogram.
use crate::athlete::{first_zone, lemma_first_zone_range, Athlete};
use crate::tpvbc::Focus;
use vstd::prelude::*;

verus! {

/// Number of buckets of each time-in-zone tracker of a ride.
pub const RIDE_ZONES: u32 = 7;

/// Speed: current, highest and average.
#[derive(Clone, Copy, Debug, PartialEq, Eq, Structural)]
pub struct Speed {
    pub cur: u32,
    pub max: u32,
    pub avg: u64,
    pub first: bool,
}

/// Heart rate: current, lowest, highest, the feed's average, and every sample so far.
#[derive(Clone, Debug)]
pub struct HearRate {
    pub cur: u32,
    pub min: u32,
    pub max: u32,
    pub avg: u32,
    pub history: Vec<u32>,
    pub first: bool,
}

/// Cadence: current, highest, the feed's average, and every sample so far.
#[derive(Clone, Debug)]
pub struct Cadence {
    pub cur: u32,
    pub max: u32,
    pub avg: u32,
    pub history: Vec<u32>,
    pub first: bool,
}

/// Power: current, highest, the feed's normalized power, current power per body weight, and
/// every sample so far.
#[derive(Clone, Debug)]
pub struct Power {
    pub cur: u32,
    pub max: u32,
    pub nrm: u32,
    pub wpk: u64,
    pub history: Vec<u32>,
    pub first: bool,
}

/// Elevation: total ascent as the feed reports it, and the current slope.
#[derive(Clone, Copy, Debug, PartialEq, Eq, Structural)]
pub struct Height {
    pub ascend: u32,
    pub slope: i32,
}

/// Wind: speed, angle and draft.
#[derive(Clone, Copy, Debug, PartialEq, Eq, Structural)]
pub struct Wind {
    pub speed: u32,
    pub angle: u32,
    pub draft: u32,
}

/// The metrics of a ride or a lap.
#[derive(Clone, Debug)]
pub struct Metrics {
    pub time: u32,
    pub distance: u32,
    pub tss: u32,
    pub calories: u32,
    pub speed: Speed,
    pub hr: HearRate,
    pub cadence: Cadence,
    pub power: Power,
    pub height: Height,
    pub lap: u32,
    pub wind: Wind,
}

/// Seconds spent in each zone.
#[derive(Clone, Debug)]
pub struct TimeInZones {
    pub zones: Vec<u32>,
}

/// One ride: the athlete, the accumulated metrics and the time spent in each zone.
#[derive(Clone, Debug)]
pub struct Ride {
    pub athlete: Athlete,
    pub total: Metrics,
    pub current_lap: Metrics,
    pub past_laps: Vec<Metrics>,
    pub time_in_hr_zones: TimeInZones,
    pub time_in_pwr_zones: TimeInZones,
}

// ----- what each part is before the first sample

/// `s` is the speed before the first sample.
pub open spec fn is_initial_speed(s: Speed) -> bool {
    s == Speed { cur: 0, max: 0, avg: 0, first: true }
}

/// `h` is the heart rate before the first sample; its history starts with a zero.
pub open spec fn is_initial_hr(h: HearRate) -> bool {
    &&& h.cur == 0 && h.min == 0 && h.max == 0 && h.avg == 0
    &&& h.history@ == seq![0u32]
    &&& h.first
}

/// `c` is the cadence before the first sample; its history starts with a zero.
pub open spec fn is_initial_cadence(c: Cadence) -> bool {
    &&& c.cur == 0 && c.max == 0 && c.avg == 0
    &&& c.history@ == seq![0u32]
    &&& c.first
}

/// `p` is the power before the first sample; its history starts with a zero.
pub open spec fn is_initial_power(p: Power) -> bool {
    &&& p.cur == 0 && p.max == 0 && p.nrm == 0 && p.wpk == 0
    &&& p.history@ == seq![0u32]
    &&& p.first
}

/// Every field of `m` but the wind holds its value from before the first sample.
pub open spec fn is_initial_but_wind(m: Metrics) -> bool {
    &&& m.time == 0 && m.distance == 0 && m.tss == 0 && m.calories == 0
    &&& is_initial_speed(m.speed)
    &&& is_initial_hr(m.hr)
    &&& is_initial_cadence(m.cadence)
    &&& is_initial_power(m.power)
    &&& m.height == Height { ascend: 0, slope: 0 }
    &&& m.lap == 0
}

/// Every field of `m` holds its value from before the first sample.
pub open spec fn is_initial_metrics(m: Metrics) -> bool {
    &&& is_initial_but_wind(m)
    &&& m.wind == Wind { speed: 0, angle: 0, draft: 0 }
}

/// `n` zero-second buckets.
pub open spec fn zero_buckets(n: nat) -> Seq<u32> {
    Seq::new(n, |i: int| 0u32)
}

// ----- how each part takes in an accepted sample

/// The average speed over `distance` metres in `time` seconds, in the broadcast's unit:
/// metres per second times 3.6 km/h, times 275.
pub open spec fn avg_speed(distance: u32, time: u32) -> int {
    distance as int * 990 / time as int
}

/// The larger of `old` and `cur`, or `cur` alone on the first sample.
pub open spec fn new_max(first: bool, old: u32, cur: u32) -> u32 {
    if first || cur > old {
        cur
    } else {
        old
    }
}

/// The smaller of `old` and `cur`, or `cur` alone on the first sample.
pub open spec fn new_min(first: bool, old: u32, cur: u32) -> u32 {
    if first || cur < old {
        cur
    } else {
        old
    }
}

/// Power per body weight, in thousandths of a watt per kilogram, for a weight in grams.
pub open spec fn watts_per_kg(power: u32, weight: u32) -> int {
    power as int * 1_000_000 / weight as int
}

/// The speed after the sample `f`.
pub open spec fn speed_after(s: Speed, f: Focus) -> Speed {
    Speed {
        cur: f.speed,
        max: new_max(s.first, s.max, f.speed),
        avg: avg_speed(f.distance, f.time) as u64,
        first: false,
    }
}

/// `n` is the heart rate `o` after the sample `f`.
pub open spec fn hr_updated(o: HearRate, n: HearRate, f: Focus) -> bool {
    &&& n.cur == f.heartrate
    &&& n.min == new_min(o.first, o.min, f.heartrate)
    &&& n.max == new_max(o.first, o.max, f.heartrate)
    &&& n.avg == f.avg_heartrate
    &&& n.history@ == o.history@.push(f.heartrate)
    &&& !n.first
}

/// `n` is the cadence `o` after the sample `f`.
pub open spec fn cadence_updated(o: Cadence, n: Cadence, f: Focus) -> bool {
    &&& n.cur == f.cadence
    &&& n.max == new_max(o.first, o.max, f.cadence)
    &&& n.avg == f.avg_cadence
    &&& n.history@ == o.history@.push(f.cadence)
    &&& !n.first
}

/// `n` is the power `o` after the sample `f`, for a body weight of `weight` grams.
pub open spec fn power_updated(o: Power, n: Power, f: Focus, weight: u32) -> bool {
    &&& n.cur == f.power
    &&& n.max == new_max(o.first, o.max, f.power)
    &&& n.nrm == f.nrm_power
    &&& n.wpk == watts_per_kg(f.power, weight)
    &&& n.history@ == o.history@.push(f.power)
    &&& !n.first
}

/// The wind that the sample `f` reports.
pub open spec fn wind_of(f: Focus) -> Wind {
    Wind { speed: f.wind_speed, angle: f.wind_angle, draft: f.draft }
}

/// The lap count after sample `f`: one more than the laps done, unless the feed reports none.
pub open spec fn lap_after(lap: u32, f: Focus) -> u32 {
    if f.event_laps_done >= 0 {
        (f.event_laps_done + 1) as u32
    } else {
        lap
    }
}

/// `n` is `o` after taking in the sample `f`, wind left aside.
pub open spec fn metrics_advanced(o: Metrics, n: Metrics, f: Focus, weight: u32) -> bool {
    &&& n.time == f.time
    &&& n.distance == f.distance
    &&& n.tss == f.tss
    &&& n.calories == f.calories
    &&& n.speed == speed_after(o.speed, f)
    &&& hr_updated(o.hr, n.hr, f)
    &&& cadence_updated(o.cadence, n.cadence, f)
    &&& power_updated(o.power, n.power, f, weight)
    &&& n.height == Height { ascend: f.height, slope: f.slope }
    &&& n.lap == lap_after(o.lap, f)
}

/// `n` and `o` agree on every field but the wind.
pub open spec fn same_but_wind(o: Metrics, n: Metrics) -> bool {
    &&& n.time == o.time
    &&& n.distance == o.distance
    &&& n.tss == o.tss
    &&& n.calories == o.calories
    &&& n.speed == o.speed
    &&& n.hr == o.hr
    &&& n.cadence == o.cadence
    &&& n.power == o.power
    &&& n.height == o.height
    &&& n.lap == o.lap
}

// ----- time in zones

/// The sum of the buckets.
pub open spec fn total_seconds(s: Seq<u32>) -> int
    decreases s.len(),
{
    if s.len() == 0 {
        0
    } else {
        total_seconds(s.drop_last()) + s.last()
    }
}

/// The buckets after adding `secs` to bucket `zone`, or unchanged when there is no such bucket.
pub open spec fn with_time_added(s: Seq<u32>, zone: int, secs: int) -> Seq<u32> {
    if 0 <= zone < s.len() {
        s.update(zone, (s[zone] + secs) as u32)
    } else {
        s
    }
}

/// The numerator of each bucket's percentage: all of it to the first bucket while no time was
/// counted, else one hundred times the bucket's seconds.
pub open spec fn percentage_numerators(s: Seq<u32>) -> Seq<int> {
    if total_seconds(s) == 0 {
        Seq::new(s.len(), |i: int| if i == 0 { 100int } else { 0int })
    } else {
        Seq::new(s.len(), |i: int| 100 * s[i])
    }
}

/// The denominator shared by all percentages: the total seconds, or one while there are none.
pub open spec fn percentage_denominator(s: Seq<u32>) -> int {
    if total_seconds(s) == 0 {
        1
    } else {
        total_seconds(s)
    }
}

/// The sum of the integers of `s`.
pub open spec fn sum_ints(s: Seq<int>) -> int
    decreases s.len(),
{
    if s.len() == 0 {
        0
    } else {
        sum_ints(s.drop_last()) + s.last()
    }
}

proof fn lemma_total_nonneg_and_bounds(s: Seq<u32>)
    ensures
        total_seconds(s) >= 0,
        forall|i: int| 0 <= i < s.len() ==> s[i] <= total_seconds(s),
        total_seconds(s) <= s.len() * u32::MAX,
    decreases s.len(),
{
    if s.len() > 0 {
        lemma_total_nonneg_and_bounds(s.drop_last());
        assert forall|i: int| 0 <= i < s.len() implies s[i] <= total_seconds(s) by {
            if i < s.len() - 1 {
                assert(s[i] == s.drop_last()[i]);
            }
        }
        assert((s.len() - 1) * u32::MAX + u32::MAX == s.len() * u32::MAX) by (nonlinear_arith);
    }
}

proof fn lemma_total_update(s: Seq<u32>, i: int, v: u32)
    requires
        0 <= i < s.len(),
    ensures
        total_seconds(s.update(i, v)) == total_seconds(s) - s[i] + v,
    decreases s.len(),
{
    let t = s.update(i, v);
    if i == s.len() - 1 {
        assert(t.drop_last() =~= s.drop_last());
    } else {
        assert(t.drop_last() =~= s.drop_last().update(i, v));
        lemma_total_update(s.drop_last(), i, v);
    }
}

proof fn lemma_total_zero_buckets(n: nat)
    ensures
        total_seconds(zero_buckets(n)) == 0,
    decreases n,
{
    if n > 0 {
        assert(zero_buckets(n).drop_last() =~= zero_buckets((n - 1) as nat));
        lemma_total_zero_buckets((n - 1) as nat);
    }
}

proof fn lemma_sum_scaled(s: Seq<u32>)
    ensures
        sum_ints(Seq::new(s.len(), |i: int| 100 * s[i])) == 100 * total_seconds(s),
    decreases s.len(),
{
    if s.len() > 0 {
        let a = Seq::new(s.len(), |i: int| 100 * s[i]);
        let d = s.drop_last();
        assert(a.drop_last() =~= Seq::new(d.len(), |i: int| 100 * d[i]));
        lemma_sum_scaled(d);
    }
}

proof fn lemma_sum_first_only(n: nat)
    requires
        n > 0,
    ensures
        sum_ints(Seq::new(n, |i: int| if i == 0 { 100int } else { 0int })) == 100,
    decreases n,
{
    let a = Seq::new(n, |i: int| if i == 0 { 100int } else { 0int });
    if n > 1 {
        assert(a.drop_last() =~= Seq::new((n - 1) as nat, |i: int| if i == 0 { 100int } else { 0int }));
        lemma_sum_first_only((n - 1) as nat);
        assert(a.last() == 0);
    } else {
        assert(a.drop_last() =~= Seq::<int>::empty());
        assert(sum_ints(a.drop_last()) == 0);
        assert(a.last() == 100);
    }
    assert(sum_ints(a) == sum_ints(a.drop_last()) + a.last());
}

/// The percentages of a tracker with at least one bucket add up to exactly one hundred: the
/// numerators sum to one hundred times the shared denominator, which is positive; with no
/// time counted they are one hundred for the first bucket and zero for the others.
pub proof fn lemma_percentages_sum_to_hundred(s: Seq<u32>)
    requires
        s.len() > 0,
    ensures
        percentage_denominator(s) > 0,
        sum_ints(percentage_numerators(s)) == 100 * percentage_denominator(s),
        total_seconds(s) == 0 ==> percentage_numerators(s) == Seq::new(
            s.len(),
            |i: int| if i == 0 { 100int } else { 0int },
        ),
{
    lemma_total_nonneg_and_bounds(s);
    if total_seconds(s) == 0 {
        lemma_sum_first_only(s.len());
    } else {
        lemma_sum_scaled(s);
    }
}

impl Speed {
    pub fn new() -> (r: Speed)
        ensures
            is_initial_speed(r),
    {
        Speed { cur: 0, max: 0, avg: 0, first: true }
    }

    fn update(&mut self, focus: &Focus)
        requires
            focus.time > 0,
        ensures
            *final(self) == speed_after(*old(self), *focus),
    {
        self.cur = focus.speed;
        if self.first || self.cur > self.max {
            self.max = self.cur;
        }
        self.avg = (focus.distance as u64) * 990 / (focus.time as u64);
        self.first = false;
    }
}

impl HearRate {
    pub fn new() -> (r: HearRate)
        ensures
            is_initial_hr(r),
    {
        let mut history: Vec<u32> = Vec::new();
        history.push(0);
        assert(history@ =~= seq![0u32]);
        HearRate { cur: 0, min: 0, max: 0, avg: 0, history, first: true }
    }

    fn update(&mut self, focus: &Focus)
        ensures
            hr_updated(*old(self), *final(self), *focus),
    {
        self.cur = focus.heartrate;
        self.history.push(self.cur);
        if self.first || self.cur < self.min {
            self.min = self.cur;
        }
        if self.first || self.cur > self.max {
            self.max = self.cur;
        }
        self.avg = focus.avg_heartrate;
        self.first = false;
    }
}

impl Cadence {
    pub fn new() -> (r: Cadence)
        ensures
            is_initial_cadence(r),
    {
        let mut history: Vec<u32> = Vec::new();
        history.push(0);
        assert(history@ =~= seq![0u32]);
        Cadence { cur: 0, max: 0, avg: 0, history, first: true }
    }

    fn update(&mut self, focus: &Focus)
        ensures
            cadence_updated(*old(self), *final(self), *focus),
    {
        self.cur = focus.cadence;
        self.history.push(self.cur);
        if self.first || self.cur > self.max {
            self.max = self.cur;
        }
        self.avg = focus.avg_cadence;
        self.first = false;
    }
}

impl Power {
    pub fn new() -> (r: Power)
        ensures
            is_initial_power(r),
    {
        let mut history: Vec<u32> = Vec::new();
        history.push(0);
        assert(history@ =~= seq![0u32]);
        Power { cur: 0, max: 0, nrm: 0, wpk: 0, history, first: true }
    }

    fn update(&mut self, focus: &Focus, weight: u32)
        requires
            weight > 0,
        ensures
            power_updated(*old(self), *final(self), *focus, weight),
    {
        self.cur = focus.power;
        self.history.push(self.cur);
        if self.first || self.cur > self.max {
            self.max = self.cur;
        }
        self.nrm = focus.nrm_power;
        assert((focus.power as u64) * 1_000_000 <= u64::MAX) by (nonlinear_arith)
            requires
                focus.power <= u32::MAX,
        ;
        self.wpk = (focus.power as u64) * 1_000_000 / (weight as u64);
        self.first = false;
    }
}

impl Height {
    pub fn new() -> (r: Height)
        ensures
            r == (Height { ascend: 0, slope: 0 }),
    {
        Height { ascend: 0, slope: 0 }
    }

    fn update(&mut self, focus: &Focus)
        ensures
            *final(self) == (Height { ascend: focus.height, slope: focus.slope }),
    {
        self.ascend = focus.height;
        self.slope = focus.slope;
    }
}

impl Wind {
    pub fn new() -> (r: Wind)
        ensures
            r == (Wind { speed: 0, angle: 0, draft: 0 }),
    {
        Wind { speed: 0, angle: 0, draft: 0 }
    }

    fn update(&mut self, focus: &Focus)
        ensures
            *final(self) == wind_of(*focus),
    {
        self.speed = focus.wind_speed;
        self.angle = focus.wind_angle;
        self.draft = focus.draft;
    }
}

impl Metrics {
    pub fn new() -> (r: Metrics)
        ensures
            is_initial_metrics(r),
    {
        Metrics {
            time: 0,
            distance: 0,
            tss: 0,
            calories: 0,
            speed: Speed::new(),
            hr: HearRate::new(),
            cadence: Cadence::new(),
            power: Power::new(),
            height: Height::new(),
            lap: 0,
            wind: Wind::new(),
        }
    }
}

impl TimeInZones {
    /// A tracker of `number_of_zones` buckets, all at zero seconds.
    pub fn new(number_of_zones: u32) -> (r: TimeInZones)
        ensures
            r.zones@ == zero_buckets(number_of_zones as nat),
    {
        let mut v: Vec<u32> = Vec::new();
        let mut i: u32 = 0;
        while i < number_of_zones
            invariant
                i <= number_of_zones,
                v@ == zero_buckets(i as nat),
            decreases number_of_zones - i,
        {
            v.push(0);
            i = i + 1;
            assert(v@ =~= zero_buckets(i as nat));
        }
        TimeInZones { zones: v }
    }

    /// Adds `secs` seconds to bucket `zone`; an index past the last bucket is ignored.
    pub fn add_time(&mut self, zone: u32, secs: u32)
        requires
            zone < old(self).zones@.len() ==> old(self).zones@[zone as int] + secs <= u32::MAX,
        ensures
            final(self).zones@ == with_time_added(old(self).zones@, zone as int, secs as int),
    {
        if (zone as usize) < self.zones.len() {
            let z = zone as usize;
            self.zones[z] = self.zones[z] + secs;
        }
    }

    /// The seconds of all buckets together.
    pub fn total_time(&self) -> (r: u64)
        requires
            self.zones@.len() <= u32::MAX,
        ensures
            r == total_seconds(self.zones@),
    {
        let mut total: u64 = 0;
        let mut i: usize = 0;
        while i < self.zones.len()
            invariant
                i <= self.zones@.len() <= u32::MAX,
                total == total_seconds(self.zones@.subrange(0, i as int)),
            decreases self.zones@.len() - i,
        {
            proof {
                let s = self.zones@.subrange(0, i as int + 1);
                assert(s.drop_last() =~= self.zones@.subrange(0, i as int));
                lemma_total_nonneg_and_bounds(s);
                assert(s.len() * u32::MAX <= u32::MAX * u32::MAX) by (nonlinear_arith)
                    requires
                        s.len() <= u32::MAX,
                ;
            }
            total = total + self.zones[i] as u64;
            i = i + 1;
        }
        assert(self.zones@.subrange(0, i as int) =~= self.zones@);
        total
    }

    /// Each bucket's share of the total time in percent, as a numerator and a denominator.
    /// With no time counted the first bucket gets all of it.
    pub fn percentages(&self) -> (r: Vec<(u64, u64)>)
        requires
            self.zones@.len() <= u32::MAX,
        ensures
            r@.len() == self.zones@.len(),
            forall|i: int|
                0 <= i < r@.len() ==> r@[i].0 == percentage_numerators(self.zones@)[i]
                    && r@[i].1 == percentage_denominator(self.zones@),
    {
        let total = self.total_time();
        let mut pc: Vec<(u64, u64)> = Vec::new();
        let mut i: usize = 0;
        while i < self.zones.len()
            invariant
                i <= self.zones@.len() <= u32::MAX,
                total == total_seconds(self.zones@),
                pc@.len() == i,
                forall|k: int|
                    0 <= k < i ==> pc@[k].0 == percentage_numerators(self.zones@)[k]
                        && pc@[k].1 == percentage_denominator(self.zones@),
            decreases self.zones@.len() - i,
        {
            let num: u64 = if total == 0 {
                if i == 0 { 100 } else { 0 }
            } else {
                100 * (self.zones[i] as u64)
            };
            let den: u64 = if total == 0 { 1 } else { total };
            assert(percentage_numerators(self.zones@)[i as int] == num);
            assert(percentage_denominator(self.zones@) == den);
            let ghost before = pc@;
            pc.push((num, den));
            assert forall|k: int| 0 <= k < i + 1 implies pc@[k].0 == percentage_numerators(
                self.zones@,
            )[k] && pc@[k].1 == percentage_denominator(self.zones@) by {
                if k < i {
                    assert(pc@[k] == before[k]);
                }
            }
            i = i + 1;
        }
        pc
    }
}

impl Ride {
    /// Holds whenever the ride is used: a positive body weight, seven buckets per tracker, and
    /// no more time in zones than the ride has lasted.
    pub open spec fn wf(&self) -> bool {
        &&& self.athlete.weight > 0
        &&& self.athlete.hr_zones.zones@.len() <= u32::MAX
        &&& self.athlete.pwr_zones.zones@.len() <= u32::MAX
        &&& self.time_in_hr_zones.zones@.len() == RIDE_ZONES
        &&& self.time_in_pwr_zones.zones@.len() == RIDE_ZONES
        &&& total_seconds(self.time_in_hr_zones.zones@) <= self.total.time
        &&& total_seconds(self.time_in_pwr_zones.zones@) <= self.total.time
    }

    /// Everything but the athlete is as before the first sample.
    pub open spec fn is_reset(&self) -> bool {
        &&& is_initial_metrics(self.total)
        &&& is_initial_metrics(self.current_lap)
        &&& self.past_laps@.len() == 0
        &&& self.time_in_hr_zones.zones@ == zero_buckets(RIDE_ZONES as nat)
        &&& self.time_in_pwr_zones.zones@ == zero_buckets(RIDE_ZONES as nat)
    }

    /// `n` is the ride `o` after taking in the focus sample `f`: a later sample is counted, an
    /// earlier one starts the ride over and is dropped, an equal one changes nothing; the
    /// wind is taken from every sample.
    pub open spec fn updated(o: Ride, n: Ride, f: Focus) -> bool {
        &&& n.athlete == o.athlete
        &&& n.total.wind == wind_of(f)
        &&& if o.total.time < f.time {
            &&& n.time_in_hr_zones.zones@ == with_time_added(
                o.time_in_hr_zones.zones@,
                first_zone(o.athlete.hr_zones.zones@, f.heartrate),
                f.time - o.total.time,
            )
            &&& n.time_in_pwr_zones.zones@ == with_time_added(
                o.time_in_pwr_zones.zones@,
                first_zone(o.athlete.pwr_zones.zones@, f.power),
                f.time - o.total.time,
            )
            &&& metrics_advanced(o.total, n.total, f, o.athlete.weight)
            &&& n.current_lap == o.current_lap
            &&& n.past_laps == o.past_laps
        } else if f.time < o.total.time {
            &&& is_initial_but_wind(n.total)
            &&& is_initial_metrics(n.current_lap)
            &&& n.past_laps@.len() == 0
            &&& n.time_in_hr_zones.zones@ == zero_buckets(RIDE_ZONES as nat)
            &&& n.time_in_pwr_zones.zones@ == zero_buckets(RIDE_ZONES as nat)
        } else {
            &&& same_but_wind(o.total, n.total)
            &&& n.current_lap == o.current_lap
            &&& n.past_laps == o.past_laps
            &&& n.time_in_hr_zones == o.time_in_hr_zones
            &&& n.time_in_pwr_zones == o.time_in_pwr_zones
        }
    }

    /// A new ride of the default athlete.
    pub fn new() -> (r: Ride)
        ensures
            r.wf(),
            r.is_reset(),
    {
        let r = Ride {
            athlete: Athlete::new(),
            total: Metrics::new(),
            current_lap: Metrics::new(),
            past_laps: Vec::new(),
            time_in_hr_zones: TimeInZones::new(RIDE_ZONES),
            time_in_pwr_zones: TimeInZones::new(RIDE_ZONES),
        };
        proof {
            lemma_total_zero_buckets(RIDE_ZONES as nat);
        }
        r
    }

    /// Starts the ride over; the athlete stays.
    pub fn reset(&mut self)
        requires
            old(self).wf(),
        ensures
            final(self).wf(),
            final(self).is_reset(),
            final(self).athlete == old(self).athlete,
    {
        self.total = Metrics::new();
        self.current_lap = Metrics::new();
        self.past_laps = Vec::new();
        self.time_in_hr_zones = TimeInZones::new(RIDE_ZONES);
        self.time_in_pwr_zones = TimeInZones::new(RIDE_ZONES);
        proof {
            lemma_total_zero_buckets(RIDE_ZONES as nat);
        }
    }

    /// Takes in one focus sample.
    pub fn update(&mut self, focus: Focus)
        requires
            old(self).wf(),
        ensures
            final(self).wf(),
            Ride::updated(*old(self), *final(self), focus),
    {
        if self.total.time < focus.time {
            let delta = focus.time - self.total.time;
            let hr_zone = self.athlete.hr_zones.zone(focus.heartrate);
            let pwr_zone = self.athlete.pwr_zones.zone(focus.power);
            proof {
                lemma_total_nonneg_and_bounds(self.time_in_hr_zones.zones@);
                lemma_total_nonneg_and_bounds(self.time_in_pwr_zones.zones@);
            }
            let ghost hr0 = self.time_in_hr_zones.zones@;
            let ghost pwr0 = self.time_in_pwr_zones.zones@;
            self.time_in_hr_zones.add_time(hr_zone, delta);
            self.time_in_pwr_zones.add_time(pwr_zone, delta);
            proof {
                if (hr_zone as int) < hr0.len() {
                    lemma_total_update(hr0, hr_zone as int, (hr0[hr_zone as int] + delta) as u32);
                }
                if (pwr_zone as int) < pwr0.len() {
                    lemma_total_update(pwr0, pwr_zone as int, (pwr0[pwr_zone as int] + delta) as u32);
                }
            }
            self.total.time = focus.time;
            self.total.distance = focus.distance;
            self.total.tss = focus.tss;
            self.total.calories = focus.calories;
            self.total.speed.update(&focus);
            self.total.hr.update(&focus);
            self.total.cadence.update(&focus);
            self.total.power.update(&focus, self.athlete.weight);
            self.total.height.update(&focus);
            if focus.event_laps_done >= 0 {
                self.total.lap = focus.event_laps_done as u32 + 1;
            }
        } else if focus.time < self.total.time {
            self.reset();
        }
        self.total.wind.update(&focus);
    }
}

/// A sample older than the ride starts the ride over: every accumulated field is back at its
/// value from before the first sample (the wind is the sample's), no laps are kept and no time
/// is left in any zone; the athlete stays.
pub proof fn lemma_older_sample_resets(o: Ride, n: Ride, f: Focus)
    requires
        Ride::updated(o, n, f),
        f.time < o.total.time,
    ensures
        is_initial_but_wind(n.total),
        n.total.wind == wind_of(f),
        is_initial_metrics(n.current_lap),
        n.past_laps@.len() == 0,
        n.time_in_hr_zones.zones@ == zero_buckets(RIDE_ZONES as nat),
        n.time_in_pwr_zones.zones@ == zero_buckets(RIDE_ZONES as nat),
        n.athlete == o.athlete,
{
}

/// A second sample with the time of the first changes nothing but the wind, unless the first
/// was older than the ride and started it over.
pub proof fn lemma_duplicate_time_changes_only_wind(
    r0: Ride,
    r1: Ride,
    r2: Ride,
    f1: Focus,
    f2: Focus,
)
    requires
        Ride::updated(r0, r1, f1),
        Ride::updated(r1, r2, f2),
        f2.time == f1.time,
        r0.total.time <= f1.time,
    ensures
        same_but_wind(r1.total, r2.total),
        r2.total.wind == wind_of(f2),
        r2.current_lap == r1.current_lap,
        r2.past_laps == r1.past_laps,
        r2.time_in_hr_zones == r1.time_in_hr_zones,
        r2.time_in_pwr_zones == r1.time_in_pwr_zones,
        r2.athlete == r1.athlete,
{
    assert(r1.total.time == f1.time);
}

/// Counting a sample newer than the ride, classified into a bucket of each tracker, adds the
/// time since the ride's last sample to each tracker.
proof fn lemma_newer_sample_adds(o: Ride, n: Ride, f: Focus)
    requires
        Ride::updated(o, n, f),
        o.wf(),
        o.total.time < f.time,
        first_zone(o.athlete.hr_zones.zones@, f.heartrate) < RIDE_ZONES,
        first_zone(o.athlete.pwr_zones.zones@, f.power) < RIDE_ZONES,
    ensures
        total_seconds(n.time_in_hr_zones.zones@) == total_seconds(o.time_in_hr_zones.zones@)
            + f.time - o.total.time,
        total_seconds(n.time_in_pwr_zones.zones@) == total_seconds(o.time_in_pwr_zones.zones@)
            + f.time - o.total.time,
        n.total.time == f.time,
{
    let d = f.time - o.total.time;
    let hs = o.time_in_hr_zones.zones@;
    let hz = first_zone(o.athlete.hr_zones.zones@, f.heartrate);
    lemma_first_zone_range(o.athlete.hr_zones.zones@, f.heartrate);
    lemma_first_zone_range(o.athlete.pwr_zones.zones@, f.power);
    lemma_total_nonneg_and_bounds(hs);
    lemma_total_update(hs, hz, (hs[hz] + d) as u32);
    let ps = o.time_in_pwr_zones.zones@;
    let pz = first_zone(o.athlete.pwr_zones.zones@, f.power);
    lemma_total_nonneg_and_bounds(ps);
    lemma_total_update(ps, pz, (ps[pz] + d) as u32);
}

proof fn lemma_rising_prefix(rides: Seq<Ride>, samples: Seq<Focus>, k: int)
    requires
        samples.len() >= 1,
        rides.len() == samples.len() + 1,
        forall|i: int| 0 <= i < rides.len() ==> (#[trigger] rides[i]).wf(),
        forall|i: int|
            0 <= i < samples.len() ==> Ride::updated(rides[i], rides[i + 1], #[trigger] samples[i]),
        forall|i: int| 0 < i < samples.len() ==> samples[i - 1].time < (#[trigger] samples[i]).time,
        rides[0].total.time <= samples[0].time,
        forall|i: int|
            0 < i < samples.len() ==> first_zone(
                rides[0].athlete.hr_zones.zones@,
                (#[trigger] samples[i]).heartrate,
            ) < RIDE_ZONES && first_zone(rides[0].athlete.pwr_zones.zones@, samples[i].power)
                < RIDE_ZONES,
        1 <= k <= samples.len(),
    ensures
        rides[k].total.time == samples[k - 1].time,
        rides[k].athlete == rides[0].athlete,
        total_seconds(rides[k].time_in_hr_zones.zones@) == total_seconds(
            rides[1].time_in_hr_zones.zones@,
        ) + samples[k - 1].time - samples[0].time,
        total_seconds(rides[k].time_in_pwr_zones.zones@) == total_seconds(
            rides[1].time_in_pwr_zones.zones@,
        ) + samples[k - 1].time - samples[0].time,
    decreases k,
{
    if k == 1 {
        assert(Ride::updated(rides[0], rides[1], samples[0]));
    } else {
        lemma_rising_prefix(rides, samples, k - 1);
        assert(Ride::updated(rides[k - 1], rides[k], samples[k - 1]));
        assert(samples[k - 2].time < samples[k - 1].time);
        assert(rides[k - 1].wf());
        lemma_newer_sample_adds(rides[k - 1], rides[k], samples[k - 1]);
    }
}

/// Feeding samples whose times rise strictly adds to each zone tracker exactly the time from
/// the first sample to the last, provided the first does not start the ride over and every
/// later sample is classified into a bucket of each tracker.
pub proof fn lemma_rising_samples_fill_zones(rides: Seq<Ride>, samples: Seq<Focus>)
    requires
        samples.len() >= 1,
        rides.len() == samples.len() + 1,
        forall|i: int| 0 <= i < rides.len() ==> (#[trigger] rides[i]).wf(),
        forall|i: int|
            0 <= i < samples.len() ==> Ride::updated(rides[i], rides[i + 1], #[trigger] samples[i]),
        forall|i: int| 0 < i < samples.len() ==> samples[i - 1].time < (#[trigger] samples[i]).time,
        rides[0].total.time <= samples[0].time,
        forall|i: int|
            0 < i < samples.len() ==> first_zone(
                rides[0].athlete.hr_zones.zones@,
                (#[trigger] samples[i]).heartrate,
            ) < RIDE_ZONES && first_zone(rides[0].athlete.pwr_zones.zones@, samples[i].power)
                < RIDE_ZONES,
    ensures
        total_seconds(rides.last().time_in_hr_zones.zones@) == total_seconds(
            rides[1].time_in_hr_zones.zones@,
        ) + samples.last().time - samples[0].time,
        total_seconds(rides.last().time_in_pwr_zones.zones@) == total_seconds(
            rides[1].time_in_pwr_zones.zones@,
        ) + samples.last().time - samples[0].time,
{
    lemma_rising_prefix(rides, samples, samples.len() as int);
}

} // verus!
