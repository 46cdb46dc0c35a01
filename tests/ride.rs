use tpvui::ride::{Cadence, HearRate, Height, Metrics, Power, Ride, Speed, TimeInZones, Wind};
use tpvui::tpvbc::Focus;

fn sample(time: u32, heartrate: u32, power: u32) -> Focus {
    let mut f = Focus::new();
    f.time = time;
    f.heartrate = heartrate;
    f.power = power;
    f
}

fn total(t: &TimeInZones) -> u64 {
    t.zones.iter().map(|&z| z as u64).sum()
}

#[test]
fn power_scenario_at_200_watts() {
    let mut r = Ride::new();
    let powers = [50u32, 150, 250, 400];
    let times = [10u32, 20, 30, 40];
    let zones: Vec<u32> = powers.iter().map(|&p| r.athlete.pwr_zones.zone(p)).collect();
    assert_eq!(zones, vec![0, 1, 5, 6]);
    for i in 0..4 {
        r.update(sample(times[i], 120, powers[i]));
    }
    // the first sample counts from zero; each later one gives its 10 s to its own zone
    assert_eq!(r.time_in_pwr_zones.zones, vec![10, 10, 0, 0, 0, 10, 10]);
    assert_eq!(r.time_in_hr_zones.zones, vec![40, 0, 0, 0, 0, 0, 0]);
    assert_eq!(r.total.time, 40);
    assert_eq!(r.total.power.max, 400);
    assert_eq!(r.total.power.history, vec![0, 50, 150, 250, 400]);
}

#[test]
fn duplicate_time_changes_only_wind() {
    let mut r = Ride::new();
    let mut f = sample(100, 150, 180);
    f.distance = 5000;
    f.speed = 8250;
    r.update(f.clone());
    let before = r.clone();
    let mut g = sample(100, 190, 500);
    g.wind_speed = 2750;
    g.wind_angle = 90;
    g.draft = 30;
    r.update(g);
    assert_eq!(r.total.time, before.total.time);
    assert_eq!(r.total.hr.history, before.total.hr.history);
    assert_eq!(r.total.power.cur, 180);
    assert_eq!(r.total.speed, before.total.speed);
    assert_eq!(r.time_in_hr_zones.zones, before.time_in_hr_zones.zones);
    assert_eq!(r.time_in_pwr_zones.zones, before.time_in_pwr_zones.zones);
    assert_eq!(r.total.wind, Wind { speed: 2750, angle: 90, draft: 30 });
}

#[test]
fn rising_times_fill_zones_with_the_elapsed_time() {
    let mut r = Ride::new();
    r.update(sample(7, 100, 100));
    let hr0 = total(&r.time_in_hr_zones);
    let pwr0 = total(&r.time_in_pwr_zones);
    for (t, hr, p) in [(9u32, 140u32, 120u32), (15, 160, 200), (40, 175, 260), (41, 185, 320)] {
        r.update(sample(t, hr, p));
    }
    assert_eq!(total(&r.time_in_hr_zones) - hr0, 41 - 7);
    assert_eq!(total(&r.time_in_pwr_zones) - pwr0, 41 - 7);
}

#[test]
fn older_sample_resets_and_is_dropped() {
    let mut r = Ride::new();
    r.update(sample(50, 150, 150));
    r.update(sample(60, 150, 150));
    let mut old = sample(5, 150, 150);
    old.wind_angle = 45;
    r.update(old);
    assert_eq!(r.total.time, 0);
    assert_eq!(r.total.hr.history, vec![0]);
    assert_eq!(r.total.power.history, vec![0]);
    assert!(r.total.speed.first);
    assert_eq!(r.time_in_hr_zones.zones, vec![0; 7]);
    assert_eq!(r.time_in_pwr_zones.zones, vec![0; 7]);
    assert_eq!(r.total.wind.angle, 45);
    // the next sample starts the new ride
    r.update(sample(8, 150, 150));
    assert_eq!(r.total.time, 8);
    assert_eq!(total(&r.time_in_hr_zones), 8);
}

#[test]
fn reset_restores_defaults() {
    let mut r = Ride::new();
    r.update(sample(30, 150, 150));
    r.reset();
    assert_eq!(r.total.time, 0);
    assert_eq!(r.total.lap, 0);
    assert!(r.past_laps.is_empty());
    assert_eq!(r.time_in_pwr_zones.zones, vec![0; 7]);
    assert_eq!(r.athlete.pwr_threshold, 200);
}

#[test]
fn metric_rules() {
    let mut r = Ride::new();
    let mut f = sample(100, 150, 305);
    f.distance = 1000;
    f.speed = 8250;
    f.avg_heartrate = 140;
    f.cadence = 90;
    f.avg_cadence = 85;
    f.nrm_power = 250;
    f.height = 120;
    f.slope = -3;
    f.event_laps_done = 2;
    f.tss = 11;
    f.calories = 99;
    r.update(f);
    assert_eq!(r.total.speed, Speed { cur: 8250, max: 8250, avg: 9900, first: false });
    assert_eq!((r.total.hr.min, r.total.hr.max, r.total.hr.avg), (150, 150, 140));
    assert_eq!((r.total.cadence.cur, r.total.cadence.avg), (90, 85));
    assert_eq!(r.total.power.nrm, 250);
    // 305 W at 61 kg is 5.0 W/kg
    assert_eq!(r.total.power.wpk, 5000);
    assert_eq!(r.total.height, Height { ascend: 120, slope: -3 });
    assert_eq!(r.total.lap, 3);
    assert_eq!((r.total.distance, r.total.tss, r.total.calories), (1000, 11, 99));

    let mut g = sample(110, 130, 100);
    g.distance = 1200;
    g.speed = 5500;
    g.event_laps_done = -1;
    r.update(g);
    assert_eq!(r.total.hr.min, 130);
    assert_eq!(r.total.hr.max, 150);
    assert_eq!(r.total.speed.max, 8250);
    assert_eq!(r.total.speed.avg, 1200 * 990 / 110);
    assert_eq!(r.total.lap, 3);
}

#[test]
fn part_constructors() {
    let h = HearRate::new();
    assert_eq!(h.history, vec![0]);
    assert!(h.first);
    let c = Cadence::new();
    assert_eq!(c.history, vec![0]);
    let p = Power::new();
    assert_eq!(p.wpk, 0);
    assert_eq!(Height::new(), Height { ascend: 0, slope: 0 });
    let m = Metrics::new();
    assert_eq!(m.time, 0);
    assert_eq!(m.wind, Wind::new());
}

#[test]
fn add_time_ignores_the_sentinel() {
    let mut t = TimeInZones::new(7);
    assert_eq!(t.zones, vec![0; 7]);
    t.add_time(2, 30);
    t.add_time(2, 5);
    t.add_time(7, 100);
    assert_eq!(t.zones, vec![0, 0, 35, 0, 0, 0, 0]);
    assert_eq!(t.total_time(), 35);
}

#[test]
fn percentages_with_no_time() {
    let t = TimeInZones::new(7);
    let p = t.percentages();
    assert_eq!(p, vec![(100, 1), (0, 1), (0, 1), (0, 1), (0, 1), (0, 1), (0, 1)]);
}

#[test]
fn percentages_sum_to_hundred() {
    let t = TimeInZones { zones: vec![10, 10, 0, 0, 0, 10, 10] };
    let p = t.percentages();
    assert_eq!(p[0], (1000, 40));
    assert_eq!(p[2], (0, 40));
    let sum: u64 = p.iter().map(|x| x.0).sum();
    assert_eq!(sum, 100 * 40);
    let as_floats: f64 = p.iter().map(|&(n, d)| n as f64 / d as f64).sum();
    assert!((as_floats - 100.0).abs() < 1e-9);
}
