use openeq::band_updates::{BandChangeTracker, BandRedesign, EqBands};

const ALL: BandRedesign = BandRedesign { low: true, mid: true, high: true };
const NONE: BandRedesign = BandRedesign { low: false, mid: false, high: false };

fn bands(low: u32, mid: u32, high: u32) -> EqBands<u32> {
    EqBands { low, mid, high }
}

/// Band settings as the plugin holds them: frequency, gain and Q.
#[derive(Clone, Copy, Debug, PartialEq)]
struct Band {
    frequency_hz: f32,
    gain_db: f32,
    q: f32,
}

fn default_settings() -> EqBands<Band> {
    EqBands {
        low: Band { frequency_hz: 120.0, gain_db: 0.0, q: 1.0 },
        mid: Band { frequency_hz: 1_000.0, gain_db: 0.0, q: 1.0 },
        high: Band { frequency_hz: 8_000.0, gain_db: 0.0, q: 1.0 },
    }
}

#[test]
fn first_update_redesigns_every_band() {
    let mut tracker = BandChangeTracker::new();
    assert_eq!(tracker.update(bands(1, 2, 3)), ALL);
}

#[test]
fn repeated_settings_redesign_nothing() {
    let mut tracker = BandChangeTracker::new();
    tracker.update(bands(1, 2, 3));
    assert_eq!(tracker.update(bands(1, 2, 3)), NONE);
    assert_eq!(tracker.update(bands(1, 2, 3)), NONE);
}

#[test]
fn only_the_changed_band_is_redesigned() {
    let mut tracker = BandChangeTracker::new();
    tracker.update(bands(1, 2, 3));
    assert_eq!(
        tracker.update(bands(1, 9, 3)),
        BandRedesign { low: false, mid: true, high: false }
    );
    assert_eq!(
        tracker.update(bands(4, 9, 5)),
        BandRedesign { low: true, mid: false, high: true }
    );
}

#[test]
fn comparison_is_with_the_immediately_previous_frame() {
    let mut tracker = BandChangeTracker::new();
    tracker.update(bands(1, 2, 3));
    tracker.update(bands(1, 7, 3));
    // Back to the first frame's mid value: it differs from the previous frame.
    assert_eq!(
        tracker.update(bands(1, 2, 3)),
        BandRedesign { low: false, mid: true, high: false }
    );
}

#[test]
fn reset_makes_the_next_update_redesign_every_band() {
    let mut tracker = BandChangeTracker::new();
    tracker.update(bands(1, 2, 3));
    tracker.reset();
    assert_eq!(tracker.update(bands(1, 2, 3)), ALL);
    assert_eq!(tracker.update(bands(1, 2, 3)), NONE);
}

#[test]
fn plugin_band_settings_follow_their_own_equality() {
    let mut tracker = BandChangeTracker::new();
    assert_eq!(tracker.update(default_settings()), ALL);
    assert_eq!(tracker.update(default_settings()), NONE);

    let mut boosted = default_settings();
    boosted.mid.gain_db = 9.0;
    boosted.mid.q = 1.5;
    assert_eq!(
        tracker.update(boosted),
        BandRedesign { low: false, mid: true, high: false }
    );

    // Negative and positive zero compare equal, so the band is kept.
    let mut signed_zero = boosted;
    signed_zero.low.gain_db = -0.0;
    assert_eq!(tracker.update(signed_zero), NONE);
}

#[test]
fn a_band_holding_nan_is_redesigned_every_frame() {
    let mut settings = default_settings();
    settings.high.gain_db = f32::NAN;
    let mut tracker = BandChangeTracker::new();
    tracker.update(settings);
    assert_eq!(
        tracker.update(settings),
        BandRedesign { low: false, mid: false, high: true }
    );
}
