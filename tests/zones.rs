use tpvui::athlete::{Athlete, HrZones, PwrZones, Zone};

fn bounds(zones: &[Zone]) -> Vec<(u32, u32)> {
    zones.iter().map(|z| (z.from, z.to)).collect()
}

#[test]
fn zone_create_keeps_its_arguments() {
    let z = Zone::create("Tempo", 151, 180);
    assert_eq!(z.name, "Tempo");
    assert_eq!(z.from, 151);
    assert_eq!(z.to, 180);
}

#[test]
fn power_bands_at_200_watts() {
    let p = PwrZones::create_from_threshold(200);
    assert_eq!(
        bounds(&p.zones),
        vec![(0, 110), (111, 150), (151, 180), (181, 210), (211, 240), (241, 300), (301, 9999)]
    );
    let names: Vec<&str> = p.zones.iter().map(|z| z.name.as_str()).collect();
    assert_eq!(
        names,
        vec!["Recovery", "Endurance", "Tempo", "Threshold", "VO2 Max", "Aerobic", "Neuromuscular"]
    );
}

#[test]
fn heart_rate_bands_at_171_bpm() {
    let h = HrZones::create_from_threshold(171);
    assert_eq!(
        bounds(&h.zones),
        vec![(0, 136), (137, 152), (153, 160), (161, 169), (170, 174), (175, 179), (180, 9999)]
    );
    assert_eq!(h.zones[0].name, "Recovery");
    assert_eq!(h.zones[6].name, "Anaerobic");
}

#[test]
fn bands_truncate_the_percentage() {
    // 0.89 * 199 = 177.11 and 1.05 * 199 = 208.95
    let h = HrZones::create_from_threshold(199);
    assert_eq!(h.zones[1].to, 177);
    assert_eq!(h.zones[5].to, 208);
    assert_eq!(h.zones[6].from, 209);
}

#[test]
fn boundaries_fall_in_the_band_they_close_or_open() {
    let p = PwrZones::create_from_threshold(200);
    assert_eq!(p.zone(110), 0);
    assert_eq!(p.zone(111), 1);
    assert_eq!(p.zone(150), 1);
    assert_eq!(p.zone(151), 2);
    assert_eq!(p.zone(300), 5);
    assert_eq!(p.zone(301), 6);
    assert_eq!(p.zone(9999), 6);
    for t in [1u32, 7, 171, 200, 5000, 100_000] {
        let h = HrZones::create_from_threshold(t);
        for i in 0..6 {
            assert_eq!(h.zones[i + 1].from, h.zones[i].to + 1);
        }
        for v in [0u32, 1, t / 2, t, t + 1, 9999] {
            let n = h.zone(v) as usize;
            assert!(n < 7);
            assert!(h.zones[n].from <= v && v <= h.zones[n].to);
        }
    }
}

#[test]
fn value_above_the_scale_gets_the_sentinel() {
    let p = PwrZones::create_from_threshold(200);
    assert_eq!(p.zone(10_000), 7);
    assert_eq!(p.name(10_000), "Unknown");
    let h = HrZones::create_from_threshold(171);
    assert_eq!(h.zone(10_000), 7);
    assert_eq!(h.name(10_000), "Unknown");
}

#[test]
fn zone_names() {
    let p = PwrZones::create_from_threshold(200);
    assert_eq!(p.name(50), "Recovery");
    assert_eq!(p.name(400), "Neuromuscular");
    let h = HrZones::create_from_threshold(171);
    assert_eq!(h.name(165), "SubThreshold");
}

#[test]
fn default_athlete() {
    let a = Athlete::new();
    assert_eq!(a.hr_threshold, 171);
    assert_eq!(a.pwr_threshold, 200);
    assert_eq!(a.weight, 61000);
    assert_eq!(a.pwr_zones.zones[3].to, 210);
    assert_eq!(a.hr_zones.zones[0].to, 136);
}
