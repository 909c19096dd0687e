//! Preset lighting scenes.

use vstd::prelude::*;

verus! {

/// Preset lighting scenes built into the bulbs.
///
/// Each scene produces a specific lighting effect, ranging from static colors
/// to dynamic animations. Scene IDs correspond to the official app scenes.
#[derive(Debug, Clone, Copy, PartialEq, Eq, Structural)]
pub enum SceneMode {
    Ocean,
    Romance,
    Sunset,
    Party,
    Fireplace,
    Cozy,
    Forest,
    PastelColors,
    WakeUp,
    Bedtime,
    WarmWhite,
    Daylight,
    CoolWhite,
    NightLight,
    Focus,
    Relax,
    TrueColors,
    TvTime,
    Plantgrowth,
    Spring,
    Summer,
    Fall,
    Deepdive,
    Jungle,
    Mojito,
    Club,
    Christmas,
    Halloween,
    Candlelight,
    GoldenWhite,
    Pulse,
    Steampunk,
    Diwali,
    Alarm,
    WarmFeeling,
    /// Rhythm mode - syncs with music (requires the app's rhythm feature)
    Rhythm,
}

impl SceneMode {
    /// The numeric scene ID of this scene.
    pub open spec fn spec_id(self) -> u16 {
        match self {
            SceneMode::Ocean => 1,
            SceneMode::Romance => 2,
            SceneMode::Sunset => 3,
            SceneMode::Party => 4,
            SceneMode::Fireplace => 5,
            SceneMode::Cozy => 6,
            SceneMode::Forest => 7,
            SceneMode::PastelColors => 8,
            SceneMode::WakeUp => 9,
            SceneMode::Bedtime => 10,
            SceneMode::WarmWhite => 11,
            SceneMode::Daylight => 12,
            SceneMode::CoolWhite => 13,
            SceneMode::NightLight => 14,
            SceneMode::Focus => 15,
            SceneMode::Relax => 16,
            SceneMode::TrueColors => 17,
            SceneMode::TvTime => 18,
            SceneMode::Plantgrowth => 19,
            SceneMode::Spring => 20,
            SceneMode::Summer => 21,
            SceneMode::Fall => 22,
            SceneMode::Deepdive => 23,
            SceneMode::Jungle => 24,
            SceneMode::Mojito => 25,
            SceneMode::Club => 26,
            SceneMode::Christmas => 27,
            SceneMode::Halloween => 28,
            SceneMode::Candlelight => 29,
            SceneMode::GoldenWhite => 30,
            SceneMode::Pulse => 31,
            SceneMode::Steampunk => 32,
            SceneMode::Diwali => 33,
            SceneMode::Alarm => 35,
            SceneMode::WarmFeeling => 36,
            SceneMode::Rhythm => 1000,
        }
    }

    /// Whether a numeric ID denotes a scene.
    pub open spec fn spec_is_id(value: u16) -> bool {
        (1 <= value <= 33) || value == 35 || value == 36 || value == 1000
    }

    /// Create a SceneMode from its numeric ID.
    ///
    /// Returns `None` for values that name no scene (0, 34, 37 and up, except
    /// 1000 for rhythm mode).
    pub fn create(value: u16) -> (r: Option<Self>)
        ensures
            Self::spec_is_id(value) ==> (r matches Some(s) && s.spec_id() == value),
            !Self::spec_is_id(value) ==> r is None,
    {
        match value {
            1 => Some(SceneMode::Ocean),
            2 => Some(SceneMode::Romance),
            3 => Some(SceneMode::Sunset),
            4 => Some(SceneMode::Party),
            5 => Some(SceneMode::Fireplace),
            6 => Some(SceneMode::Cozy),
            7 => Some(SceneMode::Forest),
            8 => Some(SceneMode::PastelColors),
            9 => Some(SceneMode::WakeUp),
            10 => Some(SceneMode::Bedtime),
            11 => Some(SceneMode::WarmWhite),
            12 => Some(SceneMode::Daylight),
            13 => Some(SceneMode::CoolWhite),
            14 => Some(SceneMode::NightLight),
            15 => Some(SceneMode::Focus),
            16 => Some(SceneMode::Relax),
            17 => Some(SceneMode::TrueColors),
            18 => Some(SceneMode::TvTime),
            19 => Some(SceneMode::Plantgrowth),
            20 => Some(SceneMode::Spring),
            21 => Some(SceneMode::Summer),
            22 => Some(SceneMode::Fall),
            23 => Some(SceneMode::Deepdive),
            24 => Some(SceneMode::Jungle),
            25 => Some(SceneMode::Mojito),
            26 => Some(SceneMode::Club),
            27 => Some(SceneMode::Christmas),
            28 => Some(SceneMode::Halloween),
            29 => Some(SceneMode::Candlelight),
            30 => Some(SceneMode::GoldenWhite),
            31 => Some(SceneMode::Pulse),
            32 => Some(SceneMode::Steampunk),
            33 => Some(SceneMode::Diwali),
            35 => Some(SceneMode::Alarm),
            36 => Some(SceneMode::WarmFeeling),
            1000 => Some(SceneMode::Rhythm),
            _ => None,
        }
    }

    /// Get the scene ID as u16.
    pub fn id(&self) -> (r: u16)
        ensures
            r == self.spec_id(),
    {
        match self {
            SceneMode::Ocean => 1,
            SceneMode::Romance => 2,
            SceneMode::Sunset => 3,
            SceneMode::Party => 4,
            SceneMode::Fireplace => 5,
            SceneMode::Cozy => 6,
            SceneMode::Forest => 7,
            SceneMode::PastelColors => 8,
            SceneMode::WakeUp => 9,
            SceneMode::Bedtime => 10,
            SceneMode::WarmWhite => 11,
            SceneMode::Daylight => 12,
            SceneMode::CoolWhite => 13,
            SceneMode::NightLight => 14,
            SceneMode::Focus => 15,
            SceneMode::Relax => 16,
            SceneMode::TrueColors => 17,
            SceneMode::TvTime => 18,
            SceneMode::Plantgrowth => 19,
            SceneMode::Spring => 20,
            SceneMode::Summer => 21,
            SceneMode::Fall => 22,
            SceneMode::Deepdive => 23,
            SceneMode::Jungle => 24,
            SceneMode::Mojito => 25,
            SceneMode::Club => 26,
            SceneMode::Christmas => 27,
            SceneMode::Halloween => 28,
            SceneMode::Candlelight => 29,
            SceneMode::GoldenWhite => 30,
            SceneMode::Pulse => 31,
            SceneMode::Steampunk => 32,
            SceneMode::Diwali => 33,
            SceneMode::Alarm => 35,
            SceneMode::WarmFeeling => 36,
            SceneMode::Rhythm => 1000,
        }
    }
}

/// Scene IDs are unique: two scenes with the same ID are the same scene.
pub proof fn lemma_scene_ids_injective(a: SceneMode, b: SceneMode)
    requires
        a.spec_id() == b.spec_id(),
    ensures
        a == b,
{
}

/// Creating a scene from an ID and reading the ID back are mutually inverse:
/// `create` succeeds exactly on the IDs that scenes carry, and returns the
/// scene with that ID.
pub proof fn lemma_scene_id_round_trip(s: SceneMode, value: u16)
    ensures
        SceneMode::spec_is_id(s.spec_id()),
        SceneMode::spec_is_id(value) ==> exists|t: SceneMode| #[trigger] t.spec_id() == value,
{
    if SceneMode::spec_is_id(value) {
        assert(exists|t: SceneMode| #[trigger] t.spec_id() == value) by {
            if value == 1 {
                assert(SceneMode::Ocean.spec_id() == value);
            } else if value == 2 {
                assert(SceneMode::Romance.spec_id() == value);
            } else if value == 3 {
                assert(SceneMode::Sunset.spec_id() == value);
            } else if value == 4 {
                assert(SceneMode::Party.spec_id() == value);
            } else if value == 5 {
                assert(SceneMode::Fireplace.spec_id() == value);
            } else if value == 6 {
                assert(SceneMode::Cozy.spec_id() == value);
            } else if value == 7 {
                assert(SceneMode::Forest.spec_id() == value);
            } else if value == 8 {
                assert(SceneMode::PastelColors.spec_id() == value);
            } else if value == 9 {
                assert(SceneMode::WakeUp.spec_id() == value);
            } else if value == 10 {
                assert(SceneMode::Bedtime.spec_id() == value);
            } else if value == 11 {
                assert(SceneMode::WarmWhite.spec_id() == value);
            } else if value == 12 {
                assert(SceneMode::Daylight.spec_id() == value);
            } else if value == 13 {
                assert(SceneMode::CoolWhite.spec_id() == value);
            } else if value == 14 {
                assert(SceneMode::NightLight.spec_id() == value);
            } else if value == 15 {
                assert(SceneMode::Focus.spec_id() == value);
            } else if value == 16 {
                assert(SceneMode::Relax.spec_id() == value);
            } else if value == 17 {
                assert(SceneMode::TrueColors.spec_id() == value);
            } else if value == 18 {
                assert(SceneMode::TvTime.spec_id() == value);
            } else if value == 19 {
                assert(SceneMode::Plantgrowth.spec_id() == value);
            } else if value == 20 {
                assert(SceneMode::Spring.spec_id() == value);
            } else if value == 21 {
                assert(SceneMode::Summer.spec_id() == value);
            } else if value == 22 {
                assert(SceneMode::Fall.spec_id() == value);
            } else if value == 23 {
                assert(SceneMode::Deepdive.spec_id() == value);
            } else if value == 24 {
                assert(SceneMode::Jungle.spec_id() == value);
            } else if value == 25 {
                assert(SceneMode::Mojito.spec_id() == value);
            } else if value == 26 {
                assert(SceneMode::Club.spec_id() == value);
            } else if value == 27 {
                assert(SceneMode::Christmas.spec_id() == value);
            } else if value == 28 {
                assert(SceneMode::Halloween.spec_id() == value);
            } else if value == 29 {
                assert(SceneMode::Candlelight.spec_id() == value);
            } else if value == 30 {
                assert(SceneMode::GoldenWhite.spec_id() == value);
            } else if value == 31 {
                assert(SceneMode::Pulse.spec_id() == value);
            } else if value == 32 {
                assert(SceneMode::Steampunk.spec_id() == value);
            } else if value == 33 {
                assert(SceneMode::Diwali.spec_id() == value);
            } else if value == 35 {
                assert(SceneMode::Alarm.spec_id() == value);
            } else if value == 36 {
                assert(SceneMode::WarmFeeling.spec_id() == value);
            } else {
                assert(SceneMode::Rhythm.spec_id() == value);
            }
        }
    }
}

} // verus!
