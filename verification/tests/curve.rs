use jeha::circadian::curve::{
    compute_target, kelvin_to_mired, parse_time_to_minutes, CircadianParams, CircadianTarget,
    Eased, Phase, Ramp,
};
use jeha::config::types::CurveType;

fn interpolate(from: f64, to: f64, ramp: &Ramp) -> f64 {
    let t = ramp.elapsed_mins as f64 / ramp.duration_mins as f64;
    let factor = match ramp.curve {
        CurveType::Cosine => (1.0 - (t * std::f64::consts::PI).cos()) / 2.0,
        CurveType::Linear => t,
    };
    from + (to - from) * factor
}

fn target_at(params: &CircadianParams, minutes: u32) -> CircadianTarget {
    let eased = match params.phase_at(minutes) {
        Phase::Ramp(ramp) => Eased {
            temp_k: interpolate(ramp.from_temp_k as f64, ramp.to_temp_k as f64, &ramp) as u16,
            brightness: interpolate(
                ramp.from_brightness as f64,
                ramp.to_brightness as f64,
                &ramp,
            ) as u8,
        },
        _ => Eased { temp_k: 1, brightness: 0 },
    };
    compute_target(params, minutes, eased)
}

fn test_params() -> CircadianParams {
    CircadianParams {
        wake_minutes: 360,       // 06:00
        sleep_minutes: 1380,     // 23:00
        ramp_duration_mins: 120, // 2 hours
        start_temp_k: 2700,
        peak_temp_k: 4000,
        end_temp_k: 2200,
        start_brightness: 180,
        peak_brightness: 254,
        end_brightness: 150,
        curve: CurveType::Cosine,
    }
}

#[test]
fn test_night_values() {
    let params = test_params();
    // 03:00 = 180 minutes — before wake
    let target = target_at(&params, 180);
    assert_eq!(target.brightness, 150);
    assert_eq!(target.color_temp_k, 2200);
}

#[test]
fn test_wake_start() {
    let params = test_params();
    // 06:00 = 360 minutes — start of morning ramp
    let target = target_at(&params, 360);
    assert_eq!(target.brightness, 180);
    assert_eq!(target.color_temp_k, 2700);
}

#[test]
fn test_midday_plateau() {
    let params = test_params();
    // 12:00 = 720 minutes — well into plateau
    let target = target_at(&params, 720);
    assert_eq!(target.brightness, 254);
    assert_eq!(target.color_temp_k, 4000);
}

#[test]
fn test_evening_end() {
    let params = test_params();
    // 23:00 = 1380 — at sleep time, should be end values
    let target = target_at(&params, 1380);
    assert_eq!(target.brightness, 150);
    assert_eq!(target.color_temp_k, 2200);
}

#[test]
fn test_morning_ramp_midpoint_cosine() {
    let params = test_params();
    // 07:00 = 420 minutes — 1 hour into 2-hour ramp = t=0.5
    let target = target_at(&params, 420);
    // Cosine at t=0.5: (1 - cos(0.5*PI))/2 = 0.5 — exactly halfway
    // Brightness: 180 + (254-180)*0.5 = 217
    assert_eq!(target.brightness, 217);
}

#[test]
fn test_kelvin_to_mired() {
    assert_eq!(kelvin_to_mired(4000), 250);
    assert_eq!(kelvin_to_mired(2700), 370);
    assert_eq!(kelvin_to_mired(6500), 153);
}

#[test]
fn test_parse_time_to_minutes() {
    assert_eq!(parse_time_to_minutes("06:00"), 360);
    assert_eq!(parse_time_to_minutes("23:00"), 1380);
    assert_eq!(parse_time_to_minutes("12:30"), 750);
}

#[test]
fn test_linear_curve() {
    let mut params = test_params();
    params.curve = CurveType::Linear;
    // 07:00 = 420 = 1hr into 2hr ramp = t=0.5
    let target = target_at(&params, 420);
    // Linear at t=0.5: brightness = 180 + (254-180)*0.5 = 217
    assert_eq!(target.brightness, 217);
}

#[test]
fn phases_follow_the_day() {
    let params = test_params();
    assert_eq!(params.phase_at(359), Phase::Night);
    assert_eq!(params.phase_at(480), Phase::Day);
    assert_eq!(params.phase_at(1259), Phase::Day);
    match params.phase_at(1260) {
        Phase::Ramp(ramp) => {
            assert_eq!(ramp.elapsed_mins, 0);
            assert_eq!(ramp.duration_mins, 120);
            assert_eq!((ramp.from_temp_k, ramp.to_temp_k), (4000, 2200));
            assert_eq!((ramp.from_brightness, ramp.to_brightness), (254, 150));
        }
        other => panic!("unexpected phase: {:?}", other),
    }
    assert_eq!(params.phase_at(1380), Phase::Night);
}

#[test]
fn ramps_are_never_overrun() {
    let mut params = test_params();
    for ramp_mins in [1u32, 120, 700, 2000] {
        params.ramp_duration_mins = ramp_mins;
        for minutes in 0..1440 {
            if let Phase::Ramp(ramp) = params.phase_at(minutes) {
                assert!(ramp.elapsed_mins < ramp.duration_mins);
            }
        }
    }
}

#[test]
fn mornings_never_fall() {
    for curve in [CurveType::Cosine, CurveType::Linear] {
        let mut params = test_params();
        params.curve = curve;
        for minutes in 360..479 {
            let (first, second) = (target_at(&params, minutes), target_at(&params, minutes + 1));
            assert!(first.brightness <= second.brightness);
            assert!(first.color_temp_k <= second.color_temp_k);
        }
    }
}

#[test]
fn targets_stay_in_range() {
    for curve in [CurveType::Cosine, CurveType::Linear] {
        let mut params = test_params();
        params.curve = curve;
        for minutes in 0..1440 {
            let target = target_at(&params, minutes);
            assert!((150..=254).contains(&target.brightness));
            assert!((2200..=4000).contains(&target.color_temp_k));
        }
    }
}

#[test]
fn only_the_temperature_in_use_has_to_be_convertible() {
    let mut params = test_params();
    params.end_temp_k = 0;
    assert_eq!(target_at(&params, 720).color_temp_k, 4000);
    params = test_params();
    params.peak_temp_k = 0;
    assert_eq!(target_at(&params, 100).color_temp_k, 2200);
}

#[test]
fn without_a_ramp_the_day_is_flat() {
    let mut params = test_params();
    params.ramp_duration_mins = 0;
    assert_eq!(params.phase_at(360), Phase::Day);
    assert_eq!(params.phase_at(1379), Phase::Day);
}

#[test]
fn mired_values_wrap_below_16_kelvin() {
    assert_eq!(kelvin_to_mired(16), 62_500);
    assert_eq!(kelvin_to_mired(15), (66_666 - 65_536) as u16);
    assert_eq!(kelvin_to_mired(65_535), 15);
}

#[test]
fn a_text_that_is_no_time_counts_as_midnight() {
    assert_eq!(parse_time_to_minutes("noon"), 0);
    assert_eq!(parse_time_to_minutes("25:00"), 0);
}
