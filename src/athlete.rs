//! Physiological zone models: a heart-rate and a power model with seven bands each, whose
//! bounds are fixed percentages of an athlete's threshold.
use vstd::arithmetic::div_mod::lemma_div_is_ordered;
use vstd::prelude::*;

verus! {

/// Upper end of the last band of every model: values above it fall in no zone.
pub const TOP_OF_SCALE: u32 = 9999;

/// A named band of measured values, `from ..= to`.
#[derive(Clone, Debug)]
pub struct Zone {
    pub name: String,
    pub from: u32,
    pub to: u32,
}

/// Whether `v` lies in the band of `z`.
pub open spec fn in_zone(z: Zone, v: u32) -> bool {
    z.from <= v && v <= z.to
}

/// The index of the first zone at or after `i` that holds `v`, or the number of zones.
pub open spec fn first_zone_from(zones: Seq<Zone>, v: u32, i: int) -> int
    decreases zones.len() - i,
{
    if i < 0 || i >= zones.len() {
        zones.len() as int
    } else if in_zone(zones[i], v) {
        i
    } else {
        first_zone_from(zones, v, i + 1)
    }
}

/// The index of the first zone that holds `v`, or the number of zones when none does.
pub open spec fn first_zone(zones: Seq<Zone>, v: u32) -> int {
    first_zone_from(zones, v, 0)
}

/// `pct` percent of `threshold`, truncated.
pub open spec fn band_top(threshold: u32, pct: int) -> int {
    threshold as int * pct / 100
}

/// The upper ends, in percent of the threshold, of the first six heart-rate bands.
pub open spec fn hr_band_pcts() -> Seq<int> {
    seq![80, 89, 94, 99, 102, 105]
}

/// The upper ends, in percent of the threshold, of the first six power bands.
pub open spec fn pwr_band_pcts() -> Seq<int> {
    seq![55, 75, 90, 105, 120, 150]
}

/// The upper end of band `i` of the model with percentages `pcts`.
pub open spec fn band_upper(threshold: u32, pcts: Seq<int>, i: int) -> int {
    if i < 6 {
        band_top(threshold, pcts[i])
    } else {
        TOP_OF_SCALE as int
    }
}

/// The lower end of band `i`: zero for the first, one above the previous band's top otherwise.
pub open spec fn band_lower(threshold: u32, pcts: Seq<int>, i: int) -> int {
    if i == 0 {
        0
    } else {
        band_upper(threshold, pcts, i - 1) + 1
    }
}

/// `zones` are the seven bands built from `threshold` with the percentages `pcts`.
pub open spec fn is_band_model(zones: Seq<Zone>, threshold: u32, pcts: Seq<int>) -> bool {
    &&& zones.len() == 7
    &&& forall|i: int|
        0 <= i < 7 ==> {
            &&& (#[trigger] zones[i]).from == band_lower(threshold, pcts, i)
            &&& zones[i].to == band_upper(threshold, pcts, i)
        }
}

/// Band tops up to 150 percent of the threshold fit in a `u32`, with one to spare.
pub open spec fn threshold_fits(threshold: u32, top_pct: int) -> bool {
    band_top(threshold, top_pct) < u32::MAX
}

/// Each zone starts one above where the previous one ends, and no zone but the last ends more
/// than one below where it starts.
pub open spec fn chained(zones: Seq<Zone>) -> bool {
    &&& zones.len() > 0
    &&& zones[0].from == 0
    &&& forall|i: int| 0 <= i < zones.len() - 1 ==> zones[i + 1].from == zones[i].to + 1
    &&& forall|i: int| 0 <= i < zones.len() - 1 ==> zones[i].from <= zones[i].to + 1
}

/// The name of heart-rate band `i`.
pub open spec fn hr_zone_name(i: int) -> Seq<char> {
    if i == 0 {
        "Recovery"@
    } else if i == 1 {
        "Aerobic"@
    } else if i == 2 {
        "Tempo"@
    } else if i == 3 {
        "SubThreshold"@
    } else if i == 4 {
        "SuperThreshold"@
    } else if i == 5 {
        "Aerobic"@
    } else {
        "Anaerobic"@
    }
}

/// The name of power band `i`.
pub open spec fn pwr_zone_name(i: int) -> Seq<char> {
    if i == 0 {
        "Recovery"@
    } else if i == 1 {
        "Endurance"@
    } else if i == 2 {
        "Tempo"@
    } else if i == 3 {
        "Threshold"@
    } else if i == 4 {
        "VO2 Max"@
    } else if i == 5 {
        "Aerobic"@
    } else {
        "Neuromuscular"@
    }
}

proof fn lemma_band_top_mono(threshold: u32, p: int, q: int)
    requires
        0 <= p <= q,
    ensures
        0 <= band_top(threshold, p) <= band_top(threshold, q),
{
    let t = threshold as int;
    assert(0 <= t * p <= t * q) by (nonlinear_arith)
        requires
            0 <= p <= q,
            0 <= t,
    ;
    lemma_div_is_ordered(t * p, t * q, 100);
    assert(0 <= (t * p) / 100) by (nonlinear_arith)
        requires
            0 <= t * p,
    ;
}

/// `pct` percent of `threshold`, truncated.
fn percent_of(threshold: u32, pct: u32) -> (r: u32)
    requires
        band_top(threshold, pct as int) <= u32::MAX,
    ensures
        r == band_top(threshold, pct as int),
{
    let t = threshold as u64;
    let p = pct as u64;
    assert(t * p <= u64::MAX) by (nonlinear_arith)
        requires
            t <= u32::MAX,
            p <= u32::MAX,
    ;
    ((t * p) / 100) as u32
}

impl Zone {
    pub fn create(new_name: &str, new_from: u32, new_to: u32) -> (r: Zone)
        ensures
            r.name@ == new_name@,
            r.from == new_from,
            r.to == new_to,
    {
        Zone { name: new_name.to_owned(), from: new_from, to: new_to }
    }
}

/// Builds the seven bands whose first six tops are the percentages `pcts` of `threshold`.
fn build_bands(threshold: u32, pcts: &Vec<u32>, names: &Vec<&str>) -> (zones: Vec<Zone>)
    requires
        pcts@.len() == 6,
        names@.len() == 7,
        forall|i: int, j: int| 0 <= i <= j < 6 ==> pcts@[i] <= pcts@[j],
        threshold_fits(threshold, pcts@[5] as int),
    ensures
        is_band_model(zones@, threshold, pcts@.map_values(|p: u32| p as int)),
        forall|i: int| 0 <= i < 7 ==> zones@[i].name@ == names@[i]@,
{
    let ghost ps = pcts@.map_values(|p: u32| p as int);
    let mut zones: Vec<Zone> = Vec::new();
    let mut from: u32 = 0;
    let mut i: usize = 0;
    while i < 6
        invariant
            0 <= i <= 6,
            ps == pcts@.map_values(|p: u32| p as int),
            pcts@.len() == 6,
            names@.len() == 7,
            forall|a: int, b: int| 0 <= a <= b < 6 ==> pcts@[a] <= pcts@[b],
            threshold_fits(threshold, pcts@[5] as int),
            zones@.len() == i,
            from == band_lower(threshold, ps, i as int),
            forall|k: int|
                0 <= k < i ==> {
                    &&& zones@[k].from == band_lower(threshold, ps, k)
                    &&& zones@[k].to == band_upper(threshold, ps, k)
                    &&& zones@[k].name@ == names@[k]@
                },
        decreases 6 - i,
    {
        proof {
            lemma_band_top_mono(threshold, pcts@[i as int] as int, pcts@[5] as int);
        }
        let to = percent_of(threshold, pcts[i]);
        zones.push(Zone::create(names[i], from, to));
        from = to + 1;
        i = i + 1;
    }
    zones.push(Zone::create(names[6], from, TOP_OF_SCALE));
    zones
}

/// Index of the first zone holding `value`, or the number of zones when none does.
fn classify(zones: &Vec<Zone>, value: u32) -> (r: u32)
    requires
        zones@.len() <= u32::MAX,
    ensures
        r == first_zone(zones@, value),
{
    let mut n: usize = 0;
    while n < zones.len()
        invariant
            n <= zones@.len() <= u32::MAX,
            first_zone(zones@, value) == first_zone_from(zones@, value, n as int),
        decreases zones@.len() - n,
    {
        if value >= zones[n].from && value <= zones[n].to {
            return n as u32;
        }
        n = n + 1;
    }
    zones.len() as u32
}

/// Name of the zone holding `value`, or "Unknown" when none does.
fn zone_name(zones: &Vec<Zone>, value: u32) -> (r: String)
    requires
        zones@.len() <= u32::MAX,
    ensures
        first_zone(zones@, value) < zones@.len() ==> r@ == zones@[first_zone(zones@, value)].name@,
        first_zone(zones@, value) >= zones@.len() ==> r@ == "Unknown"@,
{
    let n = classify(zones, value) as usize;
    if n < zones.len() {
        zones[n].name.clone()
    } else {
        "Unknown".to_owned()
    }
}

/// The heart-rate model: seven bands up to 80, 89, 94, 99, 102 and 105 percent of the
/// threshold heart rate, and above.
#[derive(Clone, Debug)]
pub struct HrZones {
    pub zones: Vec<Zone>,
}

impl HrZones {
    /// The heart-rate model of an athlete with threshold heart rate `threashold`.
    pub fn create_from_threshold(threashold: u32) -> (r: HrZones)
        requires
            threshold_fits(threashold, 105),
        ensures
            is_band_model(r.zones@, threashold, hr_band_pcts()),
            forall|i: int| 0 <= i < 7 ==> r.zones@[i].name@ == hr_zone_name(i),
    {
        let pcts: Vec<u32> = vec![80, 89, 94, 99, 102, 105];
        let names: Vec<&str> = vec![
            "Recovery",
            "Aerobic",
            "Tempo",
            "SubThreshold",
            "SuperThreshold",
            "Aerobic",
            "Anaerobic",
        ];
        let zones = build_bands(threashold, &pcts, &names);
        assert(pcts@.map_values(|p: u32| p as int) =~= hr_band_pcts());
        HrZones { zones }
    }

    /// The index of the zone that holds `value`; the number of zones when none does.
    pub fn zone(&self, value: u32) -> (r: u32)
        requires
            self.zones@.len() <= u32::MAX,
        ensures
            r == first_zone(self.zones@, value),
    {
        classify(&self.zones, value)
    }

    /// The name of the zone that holds `value`, or "Unknown" when none does.
    pub fn name(&self, value: u32) -> (r: String)
        requires
            self.zones@.len() <= u32::MAX,
        ensures
            first_zone(self.zones@, value) < self.zones@.len() ==> r@ == self.zones@[first_zone(
                self.zones@,
                value,
            )].name@,
            first_zone(self.zones@, value) >= self.zones@.len() ==> r@ == "Unknown"@,
    {
        zone_name(&self.zones, value)
    }
}

/// The power model: seven bands up to 55, 75, 90, 105, 120 and 150 percent of the
/// functional threshold power, and above.
#[derive(Clone, Debug)]
pub struct PwrZones {
    pub zones: Vec<Zone>,
}

impl PwrZones {
    /// The power model of an athlete with threshold power `threashold`.
    pub fn create_from_threshold(threashold: u32) -> (r: PwrZones)
        requires
            threshold_fits(threashold, 150),
        ensures
            is_band_model(r.zones@, threashold, pwr_band_pcts()),
            forall|i: int| 0 <= i < 7 ==> r.zones@[i].name@ == pwr_zone_name(i),
    {
        let pcts: Vec<u32> = vec![55, 75, 90, 105, 120, 150];
        let names: Vec<&str> = vec![
            "Recovery",
            "Endurance",
            "Tempo",
            "Threshold",
            "VO2 Max",
            "Aerobic",
            "Neuromuscular",
        ];
        let zones = build_bands(threashold, &pcts, &names);
        assert(pcts@.map_values(|p: u32| p as int) =~= pwr_band_pcts());
        PwrZones { zones }
    }

    /// The index of the zone that holds `value`; the number of zones when none does.
    pub fn zone(&self, value: u32) -> (r: u32)
        requires
            self.zones@.len() <= u32::MAX,
        ensures
            r == first_zone(self.zones@, value),
    {
        classify(&self.zones, value)
    }

    /// The name of the zone that holds `value`, or "Unknown" when none does.
    pub fn name(&self, value: u32) -> (r: String)
        requires
            self.zones@.len() <= u32::MAX,
        ensures
            first_zone(self.zones@, value) < self.zones@.len() ==> r@ == self.zones@[first_zone(
                self.zones@,
                value,
            )].name@,
            first_zone(self.zones@, value) >= self.zones@.len() ==> r@ == "Unknown"@,
    {
        zone_name(&self.zones, value)
    }
}

/// An athlete's physiology: thresholds, the zone models built from them, and body weight.
#[derive(Clone, Debug)]
pub struct Athlete {
    pub hr_threshold: u32,
    pub hr_zones: HrZones,
    pub pwr_threshold: u32,
    pub pwr_zones: PwrZones,
    /// Body weight in grams.
    pub weight: u32,
}

impl Athlete {
    /// The default athlete: threshold heart rate 171 bpm, threshold power 200 W, 61 kg.
    pub fn new() -> (r: Athlete)
        ensures
            r.hr_threshold == 171,
            is_band_model(r.hr_zones.zones@, 171, hr_band_pcts()),
            r.pwr_threshold == 200,
            is_band_model(r.pwr_zones.zones@, 200, pwr_band_pcts()),
            r.weight == 61000,
    {
        Athlete {
            hr_threshold: 171,
            hr_zones: HrZones::create_from_threshold(171),
            pwr_threshold: 200,
            pwr_zones: PwrZones::create_from_threshold(200),
            weight: 61000,
        }
    }
}

proof fn lemma_first_zone_from_range(zones: Seq<Zone>, v: u32, i: int)
    requires
        0 <= i,
    ensures
        0 <= first_zone_from(zones, v, i) <= zones.len(),
    decreases zones.len() - i,
{
    if i < zones.len() {
        lemma_first_zone_from_range(zones, v, i + 1);
    }
}

/// The classified index is at least zero and at most the number of zones.
pub proof fn lemma_first_zone_range(zones: Seq<Zone>, v: u32)
    ensures
        0 <= first_zone(zones, v) <= zones.len(),
{
    lemma_first_zone_from_range(zones, v, 0);
}

proof fn lemma_first_zone_from_is(zones: Seq<Zone>, v: u32, i: int, k: int)
    requires
        0 <= i <= k < zones.len(),
        in_zone(zones[k], v),
        forall|j: int| i <= j < k ==> !in_zone(#[trigger] zones[j], v),
    ensures
        first_zone_from(zones, v, i) == k,
    decreases k - i,
{
    if i < k {
        lemma_first_zone_from_is(zones, v, i + 1, k);
    }
}

proof fn lemma_first_zone_from_none(zones: Seq<Zone>, v: u32, i: int)
    requires
        0 <= i <= zones.len(),
        forall|j: int| i <= j < zones.len() ==> !in_zone(#[trigger] zones[j], v),
    ensures
        first_zone_from(zones, v, i) == zones.len(),
    decreases zones.len() - i,
{
    if i < zones.len() {
        lemma_first_zone_from_none(zones, v, i + 1);
    }
}

/// In a chain, every zone ends below where any later zone starts.
proof fn lemma_chain_tops_below(zones: Seq<Zone>, k: int)
    requires
        chained(zones),
        0 <= k < zones.len(),
    ensures
        forall|j: int| 0 <= j < k ==> #[trigger] zones[j].to < zones[k].from,
    decreases k,
{
    if k > 0 {
        lemma_chain_tops_below(zones, k - 1);
        assert(zones[k].from == zones[k - 1].to + 1);
        assert(zones[k - 1].from <= zones[k - 1].to + 1);
    }
}

/// In a chain, a value in zone `k` is classified into zone `k`.
proof fn lemma_chain_classifies(zones: Seq<Zone>, v: u32, k: int)
    requires
        chained(zones),
        0 <= k < zones.len(),
        in_zone(zones[k], v),
    ensures
        first_zone(zones, v) == k,
{
    lemma_chain_tops_below(zones, k);
    assert forall|j: int| 0 <= j < k implies !in_zone(#[trigger] zones[j], v) by {
        assert(zones[j].to < zones[k].from);
    }
    lemma_first_zone_from_is(zones, v, 0, k);
}

/// In a chain, a value at or below the last zone's top, and at or above where zone `i`
/// starts, lies in some zone.
proof fn lemma_chain_covers(zones: Seq<Zone>, v: u32, i: int)
    requires
        chained(zones),
        0 <= i < zones.len(),
        v <= zones[zones.len() - 1].to,
        zones[i].from <= v,
    ensures
        first_zone(zones, v) < zones.len(),
    decreases zones.len() - i,
{
    if v <= zones[i].to {
        lemma_chain_classifies(zones, v, i);
    } else {
        assert(zones[i + 1].from == zones[i].to + 1);
        lemma_chain_covers(zones, v, i + 1);
    }
}

/// What a chain of zones guarantees of classification.
proof fn lemma_chain_partition(zones: Seq<Zone>)
    requires
        chained(zones),
    ensures
        forall|i: int, v: u32|
            0 <= i < zones.len() && #[trigger] in_zone(zones[i], v) ==> first_zone(zones, v) == i,
        forall|v: u32| v <= zones[zones.len() - 1].to ==> #[trigger] first_zone(zones, v) < zones.len(),
        forall|v: u32|
            #[trigger] first_zone(zones, v) == zones.len() <==> (forall|i: int|
                0 <= i < zones.len() ==> !in_zone(#[trigger] zones[i], v)),
{
    assert forall|i: int, v: u32|
        0 <= i < zones.len() && #[trigger] in_zone(zones[i], v) implies first_zone(zones, v) == i by {
        lemma_chain_classifies(zones, v, i);
    }
    assert forall|v: u32| v <= zones[zones.len() - 1].to implies #[trigger] first_zone(zones, v)
        < zones.len() by {
        lemma_chain_covers(zones, v, 0);
    }
    assert forall|v: u32|
        #[trigger] first_zone(zones, v) == zones.len() <==> (forall|i: int|
            0 <= i < zones.len() ==> !in_zone(#[trigger] zones[i], v)) by {
        if forall|i: int| 0 <= i < zones.len() ==> !in_zone(#[trigger] zones[i], v) {
            lemma_first_zone_from_none(zones, v, 0);
        } else {
            let k = choose|i: int| 0 <= i < zones.len() && in_zone(#[trigger] zones[i], v);
            lemma_chain_classifies(zones, v, k);
        }
    }
}

/// A band model whose percentages rise from band to band is a chain.
proof fn lemma_band_model_chained(zones: Seq<Zone>, threshold: u32, pcts: Seq<int>)
    requires
        is_band_model(zones, threshold, pcts),
        pcts.len() == 6,
        forall|i: int| 0 <= i < 6 ==> 0 <= #[trigger] pcts[i],
        forall|i: int| 0 < i < 6 ==> pcts[i - 1] <= #[trigger] pcts[i],
    ensures
        chained(zones),
{
    assert forall|i: int| 0 <= i < 6 implies zones[i].from <= zones[i].to + 1 by {
        assert(zones[i].to == band_upper(threshold, pcts, i));
        if i > 0 {
            assert(zones[i].from == band_upper(threshold, pcts, i - 1) + 1);
            lemma_band_top_mono(threshold, pcts[i - 1], pcts[i]);
        }
    }
    assert forall|i: int| 0 <= i < 6 implies zones[i + 1].from == zones[i].to + 1 by {
        assert(zones[i].to == band_upper(threshold, pcts, i));
        assert(zones[i + 1].from == band_lower(threshold, pcts, i + 1));
    }
    assert(zones[0].from == 0);
}

/// For every threshold, the seven heart-rate bands are contiguous and do not overlap: the
/// first starts at zero, each other starts one above the previous band's top, a value that
/// lies in a band is classified into that band (so a value on a boundary goes to the band
/// whose top or bottom it is), every value up to the top of the scale lies in a band, and
/// only a value in no band gets the out-of-range index.
pub proof fn lemma_hr_zones_partition(threshold: u32, zones: Seq<Zone>)
    requires
        is_band_model(zones, threshold, hr_band_pcts()),
    ensures
        zones.len() == 7,
        zones[0].from == 0,
        forall|i: int| 0 <= i < 6 ==> #[trigger] zones[i + 1].from == zones[i].to + 1,
        forall|i: int, v: u32|
            0 <= i < 7 && #[trigger] in_zone(zones[i], v) ==> first_zone(zones, v) == i,
        forall|v: u32| v <= TOP_OF_SCALE ==> #[trigger] first_zone(zones, v) < 7,
        forall|v: u32|
            #[trigger] first_zone(zones, v) == 7 <==> (forall|i: int|
                0 <= i < 7 ==> !in_zone(#[trigger] zones[i], v)),
{
    let pcts = hr_band_pcts();
    assert(pcts[0] == 80 && pcts[1] == 89 && pcts[2] == 94 && pcts[3] == 99 && pcts[4] == 102
        && pcts[5] == 105);
    lemma_band_model_chained(zones, threshold, pcts);
    assert(zones[6].to == band_upper(threshold, pcts, 6));
    lemma_chain_partition(zones);
}

/// For every threshold, the seven power bands are contiguous and do not overlap, in the
/// same sense as the heart-rate bands.
pub proof fn lemma_pwr_zones_partition(threshold: u32, zones: Seq<Zone>)
    requires
        is_band_model(zones, threshold, pwr_band_pcts()),
    ensures
        zones.len() == 7,
        zones[0].from == 0,
        forall|i: int| 0 <= i < 6 ==> #[trigger] zones[i + 1].from == zones[i].to + 1,
        forall|i: int, v: u32|
            0 <= i < 7 && #[trigger] in_zone(zones[i], v) ==> first_zone(zones, v) == i,
        forall|v: u32| v <= TOP_OF_SCALE ==> #[trigger] first_zone(zones, v) < 7,
        forall|v: u32|
            #[trigger] first_zone(zones, v) == 7 <==> (forall|i: int|
                0 <= i < 7 ==> !in_zone(#[trigger] zones[i], v)),
{
    let pcts = pwr_band_pcts();
    assert(pcts[0] == 55 && pcts[1] == 75 && pcts[2] == 90 && pcts[3] == 105 && pcts[4] == 120
        && pcts[5] == 150);
    lemma_band_model_chained(zones, threshold, pcts);
    assert(zones[6].to == band_upper(threshold, pcts, 6));
    lemma_chain_partition(zones);
}

} // verus!
