//! Change tracking for the three EQ bands: a band's filter is redesigned only when its settings
//! differ from those of the previous frame, or when no previous frame is known.

use vstd::prelude::*;
use vstd::std_specs::cmp::PartialEqSpec;
use vstd::laws_eq::obeys_concrete_eq;

verus! {

/// One value for each band of the fixed low-shelf / mid-bell / high-shelf topology.
#[derive(Clone, Copy, Debug)]
pub struct EqBands<B> {
    pub low: B,
    pub mid: B,
    pub high: B,
}

/// Which bands must have their filter coefficients designed again.
#[derive(Clone, Copy, Debug, PartialEq, Eq, Structural)]
pub struct BandRedesign {
    pub low: bool,
    pub mid: bool,
    pub high: bool,
}

/// Every band is redesigned.
pub open spec fn redesign_all() -> BandRedesign {
    BandRedesign { low: true, mid: true, high: true }
}

/// No band is redesigned.
pub open spec fn redesign_none() -> BandRedesign {
    BandRedesign { low: false, mid: false, high: false }
}

/// A band's settings changed when the previous value is not equal to the new one.
pub open spec fn band_changed<B: PartialEq>(previous: B, next: B) -> bool {
    !previous.eq_spec(&next)
}

/// The redesign plan for `next` given the settings of the previous frame: every band when there
/// is no previous frame, else exactly the bands that changed.
pub open spec fn redesign_plan<B: PartialEq>(previous: Option<EqBands<B>>, next: EqBands<B>) -> BandRedesign {
    match previous {
        None => redesign_all(),
        Some(p) => BandRedesign {
            low: band_changed(p.low, next.low),
            mid: band_changed(p.mid, next.mid),
            high: band_changed(p.high, next.high),
        },
    }
}

/// Remembers the settings of the previous frame.
#[derive(Debug)]
pub struct BandChangeTracker<B> {
    last: Option<EqBands<B>>,
}

impl<B: PartialEq> BandChangeTracker<B> {
    /// The settings of the previous frame, if one was seen since creation or the last reset.
    pub closed spec fn previous(&self) -> Option<EqBands<B>> {
        self.last
    }

    /// A tracker that has seen no frame yet.
    pub fn new() -> (tracker: Self)
        ensures
            tracker.previous() is None,
    {
        BandChangeTracker { last: None }
    }

    /// Records `settings` as the current frame and says which bands changed since the previous
    /// one. Without a previous frame every band is reported.
    pub fn update(&mut self, settings: EqBands<B>) -> (plan: BandRedesign)
        ensures
            final(self).previous() == Some(settings),
            old(self).previous() is None ==> plan == redesign_all(),
            B::obeys_eq_spec() ==> plan == redesign_plan(old(self).previous(), settings),
    {
        let plan = match &self.last {
            None => BandRedesign { low: true, mid: true, high: true },
            Some(last) => BandRedesign {
                low: last.low != settings.low,
                mid: last.mid != settings.mid,
                high: last.high != settings.high,
            },
        };
        self.last = Some(settings);
        plan
    }

    /// Forgets the previous frame, so that the next update redesigns every band.
    pub fn reset(&mut self)
        ensures
            final(self).previous() is None,
    {
        self.last = None;
    }
}

/// Before the first frame, and after a reset, every band is redesigned, whatever the settings.
pub proof fn law_first_frame_redesigns_every_band<B: PartialEq>(settings: EqBands<B>)
    ensures
        redesign_plan(None, settings).low,
        redesign_plan(None, settings).mid,
        redesign_plan(None, settings).high,
{
}

/// When a frame repeats the settings of the previous one, no band is redesigned (for band types
/// whose equality is plain equality of values).
pub proof fn law_repeated_settings_redesign_nothing<B: PartialEq>(settings: EqBands<B>)
    requires
        obeys_concrete_eq::<B>(),
    ensures
        !redesign_plan(Some(settings), settings).low,
        !redesign_plan(Some(settings), settings).mid,
        !redesign_plan(Some(settings), settings).high,
{
    reveal(obeys_concrete_eq);
}

/// Once a frame is known, exactly the bands whose settings changed are redesigned (for band
/// types whose equality is plain equality of values).
pub proof fn law_redesign_exactly_changed_bands<B: PartialEq>(
    previous: EqBands<B>,
    next: EqBands<B>,
)
    requires
        obeys_concrete_eq::<B>(),
    ensures
        redesign_plan(Some(previous), next).low <==> previous.low != next.low,
        redesign_plan(Some(previous), next).mid <==> previous.mid != next.mid,
        redesign_plan(Some(previous), next).high <==> previous.high != next.high,
{
    reveal(obeys_concrete_eq);
}

} // verus!
