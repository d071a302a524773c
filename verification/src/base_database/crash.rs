//! Crash normalization: the crash timestamp is assembled from the raw
//! date and time at UTC offset zero, and each of the five raw
//! contributing-factor texts goes through a case-insensitive,
//! whitespace-trimmed lookup in a closed catalog of known phrases.
//! Unmatched or empty text is absent, never an error.

use crate::calendar::DateTime;
use crate::raw::crashes::RawCrashRecord;
use crate::text::{
    chars_eq_str, fold_chars, is_space, leading_spaces, lower_char, lower_seq, trailing_spaces,
    trim_spec,
};
use vstd::prelude::*;

verus! {

/// A vehicle collision, normalized for the warehouse.
#[derive(Clone, Copy, Debug, PartialEq, Eq, Structural)]
pub struct Crash {
    pub crash_id: u32,
    pub crash_timestamp: DateTime,
    pub crash_persons_injured: u16,
    pub crash_persons_killed: u16,
    pub crash_pedestrians_injured: u16,
    pub crash_pedestrians_killed: u16,
    pub crash_cyclist_injured: u16,
    pub crash_cyclist_killed: u16,
    pub crash_motorist_injured: u16,
    pub crash_motorist_killed: u16,
    pub crash_factor_1: Option<CrashFactor>,
    pub crash_factor_2: Option<CrashFactor>,
    pub crash_factor_3: Option<CrashFactor>,
    pub crash_factor_4: Option<CrashFactor>,
    pub crash_factor_5: Option<CrashFactor>,
}

/// The closed set of known contributing-factor categories.
#[derive(Clone, Copy, Debug, PartialEq, Eq, Structural)]
pub enum CrashFactor {
    DriverlessRunawayVehicle,
    ListeningUsingHeadphones,
    EatingOrDrinking,
    UnsafeLaneChanging,
    CellPhoneHandHeld,
    CellPhoneHandsFree,
    DrugsIllegal,
    Texting,
    HeadlightsDefective,
    OtherLightingDefects,
    DriverInexperience,
    AggressiveDrivingRoadRage,
    UnsafeSpeed,
    LaneMarkingImproperInadequate,
    Glare,
    TrafficControlDeviceImproperNonWorking,
    PassingTooClosely,
    AcceleratorDefective,
    ShouldersDefectiveImproper,
    OutsideCarDistraction,
    DriverInattentionDistraction,
    TintedWindows,
    UsingOnBoardNavigationDevice,
    ReactionToOtherUninvolvedVehicle,
    ObstructionDebris,
    PrescriptionMedication,
    TireFailureInadequate,
    FatiguedDrowsy,
    PassingOrLaneUsageImproper,
    FollowingTooClosely,
    ViewObstructedLimited,
    OversizedVehicle,
    LostConsciousness,
    BackingUnsafely,
    OtherVehicular,
    Illness,
    WindshieldInadequate,
    FellAsleep,
    TrafficControlDisregarded,
    PavementDefective,
    SteeringFailure,
    PassengerDistraction,
    VehicleVandalism,
    FailureToKeepRight,
    BrakesDefective,
    TurningImproperly,
    FailureToYieldRightOfWay,
    ReactionToUninvolvedVehicle,
    TowHitchDefective,
    AlcoholInvolvement,
    PhysicalDisability,
    AnimalsAction,
    OtherElectronicDevice,
    PedestrianBicyclistOtherPedestrianErrorConfusion,
    PavementSlippery,
}

/// The contributing-factor catalog, keyed by the lower-cased, trimmed
/// phrase.
pub open spec fn catalog_spec(s: Seq<char>) -> Option<CrashFactor> {
    if s == "driverless/runaway vehicle"@ {
        Some(CrashFactor::DriverlessRunawayVehicle)
    } else if s == "listening/using headphones"@ {
        Some(CrashFactor::ListeningUsingHeadphones)
    } else if s == "eating or drinking"@ {
        Some(CrashFactor::EatingOrDrinking)
    } else if s == "unsafe lane changing"@ {
        Some(CrashFactor::UnsafeLaneChanging)
    } else if s == "cell phone (hand-held)"@ {
        Some(CrashFactor::CellPhoneHandHeld)
    } else if s == "cell phone (hands-free)"@ {
        Some(CrashFactor::CellPhoneHandsFree)
    } else if s == "drugs (illegal)"@ {
        Some(CrashFactor::DrugsIllegal)
    } else if s == "texting"@ {
        Some(CrashFactor::Texting)
    } else if s == "headlights defective"@ {
        Some(CrashFactor::HeadlightsDefective)
    } else if s == "other lighting defects"@ {
        Some(CrashFactor::OtherLightingDefects)
    } else if s == "driver inexperience"@ {
        Some(CrashFactor::DriverInexperience)
    } else if s == "aggressive driving/road rage"@ {
        Some(CrashFactor::AggressiveDrivingRoadRage)
    } else if s == "unsafe speed"@ {
        Some(CrashFactor::UnsafeSpeed)
    } else if s == "lane marking improper/inadequate"@ {
        Some(CrashFactor::LaneMarkingImproperInadequate)
    } else if s == "glare"@ {
        Some(CrashFactor::Glare)
    } else if s == "traffic control device improper/non-working"@ {
        Some(CrashFactor::TrafficControlDeviceImproperNonWorking)
    } else if s == "passing too closely"@ {
        Some(CrashFactor::PassingTooClosely)
    } else if s == "accelerator defective"@ {
        Some(CrashFactor::AcceleratorDefective)
    } else if s == "shoulders defective/improper"@ {
        Some(CrashFactor::ShouldersDefectiveImproper)
    } else if s == "outside car distraction"@ {
        Some(CrashFactor::OutsideCarDistraction)
    } else if s == "driver inattention/distraction"@ {
        Some(CrashFactor::DriverInattentionDistraction)
    } else if s == "tinted windows"@ {
        Some(CrashFactor::TintedWindows)
    } else if s == "using on board navigation device"@ {
        Some(CrashFactor::UsingOnBoardNavigationDevice)
    } else if s == "reaction to other uninvolved vehicle"@ {
        Some(CrashFactor::ReactionToOtherUninvolvedVehicle)
    } else if s == "obstruction/debris"@ {
        Some(CrashFactor::ObstructionDebris)
    } else if s == "prescription medication"@ {
        Some(CrashFactor::PrescriptionMedication)
    } else if s == "tire failure/inadequate"@ {
        Some(CrashFactor::TireFailureInadequate)
    } else if s == "fatigued/drowsy"@ {
        Some(CrashFactor::FatiguedDrowsy)
    } else if s == "passing or lane usage improper"@ {
        Some(CrashFactor::PassingOrLaneUsageImproper)
    } else if s == "following too closely"@ {
        Some(CrashFactor::FollowingTooClosely)
    } else if s == "view obstructed/limited"@ {
        Some(CrashFactor::ViewObstructedLimited)
    } else if s == "oversized vehicle"@ {
        Some(CrashFactor::OversizedVehicle)
    } else if s == "lost consciousness"@ {
        Some(CrashFactor::LostConsciousness)
    } else if s == "backing unsafely"@ {
        Some(CrashFactor::BackingUnsafely)
    } else if s == "other vehicular"@ {
        Some(CrashFactor::OtherVehicular)
    } else if s == "illness"@ {
        Some(CrashFactor::Illness)
    } else if s == "windshield inadequate"@ {
        Some(CrashFactor::WindshieldInadequate)
    } else if s == "fell asleep"@ {
        Some(CrashFactor::FellAsleep)
    } else if s == "traffic control disregarded"@ {
        Some(CrashFactor::TrafficControlDisregarded)
    } else if s == "pavement defective"@ {
        Some(CrashFactor::PavementDefective)
    } else if s == "steering failure"@ {
        Some(CrashFactor::SteeringFailure)
    } else if s == "passenger distraction"@ {
        Some(CrashFactor::PassengerDistraction)
    } else if s == "vehicle vandalism"@ {
        Some(CrashFactor::VehicleVandalism)
    } else if s == "failure to keep right"@ {
        Some(CrashFactor::FailureToKeepRight)
    } else if s == "brakes defective"@ {
        Some(CrashFactor::BrakesDefective)
    } else if s == "turning improperly"@ {
        Some(CrashFactor::TurningImproperly)
    } else if s == "failure to yield right-of-way"@ {
        Some(CrashFactor::FailureToYieldRightOfWay)
    } else if s == "reaction to uninvolved vehicle"@ {
        Some(CrashFactor::ReactionToUninvolvedVehicle)
    } else if s == "tow hitch defective"@ {
        Some(CrashFactor::TowHitchDefective)
    } else if s == "alcohol involvement"@ {
        Some(CrashFactor::AlcoholInvolvement)
    } else if s == "physical disability"@ {
        Some(CrashFactor::PhysicalDisability)
    } else if s == "animals action"@ {
        Some(CrashFactor::AnimalsAction)
    } else if s == "other electronic device"@ {
        Some(CrashFactor::OtherElectronicDevice)
    } else if s == "pedestrian/bicyclist/other pedestrian error/confusion"@ {
        Some(CrashFactor::PedestrianBicyclistOtherPedestrianErrorConfusion)
    } else if s == "pavement slippery"@ {
        Some(CrashFactor::PavementSlippery)
    } else {
        None
    }
}

/// What a raw contributing-factor text normalizes to: its lower-cased,
/// trimmed form looked up in the catalog.
pub open spec fn factor_spec(s: Seq<char>) -> Option<CrashFactor> {
    catalog_spec(trim_spec(lower_seq(s)))
}

/// Looks raw contributing-factor text up in the closed catalog, folding
/// letter case and surrounding whitespace; unmatched or empty text is
/// absent, never an error.
pub fn extract_contributing_factor(contributing_factor: &str) -> (r: Option<CrashFactor>)
    ensures
        r == factor_spec(contributing_factor@),
{
    let folded = fold_chars(contributing_factor);
    if chars_eq_str(&folded, "driverless/runaway vehicle") {
        Some(CrashFactor::DriverlessRunawayVehicle)
    } else if chars_eq_str(&folded, "listening/using headphones") {
        Some(CrashFactor::ListeningUsingHeadphones)
    } else if chars_eq_str(&folded, "eating or drinking") {
        Some(CrashFactor::EatingOrDrinking)
    } else if chars_eq_str(&folded, "unsafe lane changing") {
        Some(CrashFactor::UnsafeLaneChanging)
    } else if chars_eq_str(&folded, "cell phone (hand-held)") {
        Some(CrashFactor::CellPhoneHandHeld)
    } else if chars_eq_str(&folded, "cell phone (hands-free)") {
        Some(CrashFactor::CellPhoneHandsFree)
    } else if chars_eq_str(&folded, "drugs (illegal)") {
        Some(CrashFactor::DrugsIllegal)
    } else if chars_eq_str(&folded, "texting") {
        Some(CrashFactor::Texting)
    } else if chars_eq_str(&folded, "headlights defective") {
        Some(CrashFactor::HeadlightsDefective)
    } else if chars_eq_str(&folded, "other lighting defects") {
        Some(CrashFactor::OtherLightingDefects)
    } else if chars_eq_str(&folded, "driver inexperience") {
        Some(CrashFactor::DriverInexperience)
    } else if chars_eq_str(&folded, "aggressive driving/road rage") {
        Some(CrashFactor::AggressiveDrivingRoadRage)
    } else if chars_eq_str(&folded, "unsafe speed") {
        Some(CrashFactor::UnsafeSpeed)
    } else if chars_eq_str(&folded, "lane marking improper/inadequate") {
        Some(CrashFactor::LaneMarkingImproperInadequate)
    } else if chars_eq_str(&folded, "glare") {
        Some(CrashFactor::Glare)
    } else if chars_eq_str(&folded, "traffic control device improper/non-working") {
        Some(CrashFactor::TrafficControlDeviceImproperNonWorking)
    } else if chars_eq_str(&folded, "passing too closely") {
        Some(CrashFactor::PassingTooClosely)
    } else if chars_eq_str(&folded, "accelerator defective") {
        Some(CrashFactor::AcceleratorDefective)
    } else if chars_eq_str(&folded, "shoulders defective/improper") {
        Some(CrashFactor::ShouldersDefectiveImproper)
    } else if chars_eq_str(&folded, "outside car distraction") {
        Some(CrashFactor::OutsideCarDistraction)
    } else if chars_eq_str(&folded, "driver inattention/distraction") {
        Some(CrashFactor::DriverInattentionDistraction)
    } else if chars_eq_str(&folded, "tinted windows") {
        Some(CrashFactor::TintedWindows)
    } else if chars_eq_str(&folded, "using on board navigation device") {
        Some(CrashFactor::UsingOnBoardNavigationDevice)
    } else if chars_eq_str(&folded, "reaction to other uninvolved vehicle") {
        Some(CrashFactor::ReactionToOtherUninvolvedVehicle)
    } else if chars_eq_str(&folded, "obstruction/debris") {
        Some(CrashFactor::ObstructionDebris)
    } else if chars_eq_str(&folded, "prescription medication") {
        Some(CrashFactor::PrescriptionMedication)
    } else if chars_eq_str(&folded, "tire failure/inadequate") {
        Some(CrashFactor::TireFailureInadequate)
    } else if chars_eq_str(&folded, "fatigued/drowsy") {
        Some(CrashFactor::FatiguedDrowsy)
    } else if chars_eq_str(&folded, "passing or lane usage improper") {
        Some(CrashFactor::PassingOrLaneUsageImproper)
    } else if chars_eq_str(&folded, "following too closely") {
        Some(CrashFactor::FollowingTooClosely)
    } else if chars_eq_str(&folded, "view obstructed/limited") {
        Some(CrashFactor::ViewObstructedLimited)
    } else if chars_eq_str(&folded, "oversized vehicle") {
        Some(CrashFactor::OversizedVehicle)
    } else if chars_eq_str(&folded, "lost consciousness") {
        Some(CrashFactor::LostConsciousness)
    } else if chars_eq_str(&folded, "backing unsafely") {
        Some(CrashFactor::BackingUnsafely)
    } else if chars_eq_str(&folded, "other vehicular") {
        Some(CrashFactor::OtherVehicular)
    } else if chars_eq_str(&folded, "illness") {
        Some(CrashFactor::Illness)
    } else if chars_eq_str(&folded, "windshield inadequate") {
        Some(CrashFactor::WindshieldInadequate)
    } else if chars_eq_str(&folded, "fell asleep") {
        Some(CrashFactor::FellAsleep)
    } else if chars_eq_str(&folded, "traffic control disregarded") {
        Some(CrashFactor::TrafficControlDisregarded)
    } else if chars_eq_str(&folded, "pavement defective") {
        Some(CrashFactor::PavementDefective)
    } else if chars_eq_str(&folded, "steering failure") {
        Some(CrashFactor::SteeringFailure)
    } else if chars_eq_str(&folded, "passenger distraction") {
        Some(CrashFactor::PassengerDistraction)
    } else if chars_eq_str(&folded, "vehicle vandalism") {
        Some(CrashFactor::VehicleVandalism)
    } else if chars_eq_str(&folded, "failure to keep right") {
        Some(CrashFactor::FailureToKeepRight)
    } else if chars_eq_str(&folded, "brakes defective") {
        Some(CrashFactor::BrakesDefective)
    } else if chars_eq_str(&folded, "turning improperly") {
        Some(CrashFactor::TurningImproperly)
    } else if chars_eq_str(&folded, "failure to yield right-of-way") {
        Some(CrashFactor::FailureToYieldRightOfWay)
    } else if chars_eq_str(&folded, "reaction to uninvolved vehicle") {
        Some(CrashFactor::ReactionToUninvolvedVehicle)
    } else if chars_eq_str(&folded, "tow hitch defective") {
        Some(CrashFactor::TowHitchDefective)
    } else if chars_eq_str(&folded, "alcohol involvement") {
        Some(CrashFactor::AlcoholInvolvement)
    } else if chars_eq_str(&folded, "physical disability") {
        Some(CrashFactor::PhysicalDisability)
    } else if chars_eq_str(&folded, "animals action") {
        Some(CrashFactor::AnimalsAction)
    } else if chars_eq_str(&folded, "other electronic device") {
        Some(CrashFactor::OtherElectronicDevice)
    } else if chars_eq_str(&folded, "pedestrian/bicyclist/other pedestrian error/confusion") {
        Some(CrashFactor::PedestrianBicyclistOtherPedestrianErrorConfusion)
    } else if chars_eq_str(&folded, "pavement slippery") {
        Some(CrashFactor::PavementSlippery)
    } else {
        None
    }
}

impl Crash {
    /// How a normalized crash relates to its raw record.
    pub open spec fn matches_raw(self, raw: RawCrashRecord) -> bool {
        &&& self.crash_id == raw.collision_id
        &&& self.crash_timestamp == (DateTime { date: raw.crash_date, time: raw.crash_time })
        &&& self.crash_persons_injured == raw.number_of_persons_injured
        &&& self.crash_persons_killed == raw.number_of_persons_killed
        &&& self.crash_pedestrians_injured == raw.number_of_pedestrians_injured
        &&& self.crash_pedestrians_killed == raw.number_of_pedestrians_killed
        &&& self.crash_cyclist_injured == raw.number_of_cyclist_injured
        &&& self.crash_cyclist_killed == raw.number_of_cyclist_killed
        &&& self.crash_motorist_injured == raw.number_of_motorist_injured
        &&& self.crash_motorist_killed == raw.number_of_motorist_killed
        &&& self.crash_factor_1 == factor_spec(raw.contributing_factor_vehicle_1@)
        &&& self.crash_factor_2 == factor_spec(raw.contributing_factor_vehicle_2@)
        &&& self.crash_factor_3 == factor_spec(raw.contributing_factor_vehicle_3@)
        &&& self.crash_factor_4 == factor_spec(raw.contributing_factor_vehicle_4@)
        &&& self.crash_factor_5 == factor_spec(raw.contributing_factor_vehicle_5@)
    }

    /// Normalizes one raw crash row: the timestamp combines the raw date
    /// and time at UTC offset zero, and the five factor texts go through
    /// the catalog.
    pub fn from(raw: RawCrashRecord) -> (r: Crash)
        ensures
            r.matches_raw(raw),
    {
        Crash {
            crash_id: raw.collision_id,
            crash_timestamp: DateTime { date: raw.crash_date, time: raw.crash_time },
            crash_persons_injured: raw.number_of_persons_injured,
            crash_persons_killed: raw.number_of_persons_killed,
            crash_pedestrians_injured: raw.number_of_pedestrians_injured,
            crash_pedestrians_killed: raw.number_of_pedestrians_killed,
            crash_cyclist_injured: raw.number_of_cyclist_injured,
            crash_cyclist_killed: raw.number_of_cyclist_killed,
            crash_motorist_injured: raw.number_of_motorist_injured,
            crash_motorist_killed: raw.number_of_motorist_killed,
            crash_factor_1: extract_contributing_factor(raw.contributing_factor_vehicle_1.as_str()),
            crash_factor_2: extract_contributing_factor(raw.contributing_factor_vehicle_2.as_str()),
            crash_factor_3: extract_contributing_factor(raw.contributing_factor_vehicle_3.as_str()),
            crash_factor_4: extract_contributing_factor(raw.contributing_factor_vehicle_4.as_str()),
            crash_factor_5: extract_contributing_factor(raw.contributing_factor_vehicle_5.as_str()),
        }
    }
}

proof fn lemma_lower_preserves_space(c: char)
    ensures
        is_space(lower_char(c)) == is_space(c),
{
}

proof fn lemma_spaces_bounds(s: Seq<char>)
    ensures
        0 <= leading_spaces(s) <= s.len(),
        0 <= trailing_spaces(s) <= s.len(),
    decreases s.len(),
{
    if s.len() > 0 {
        lemma_spaces_bounds(s.drop_first());
        lemma_spaces_bounds(s.drop_last());
    }
}

proof fn lemma_leading_spaces_lower(s: Seq<char>)
    ensures
        leading_spaces(lower_seq(s)) == leading_spaces(s),
    decreases s.len(),
{
    if s.len() > 0 {
        lemma_lower_preserves_space(s.first());
        assert(lower_seq(s).first() == lower_char(s.first()));
        assert(lower_seq(s).drop_first() =~= lower_seq(s.drop_first()));
        lemma_leading_spaces_lower(s.drop_first());
    }
}

proof fn lemma_trailing_spaces_lower(s: Seq<char>)
    ensures
        trailing_spaces(lower_seq(s)) == trailing_spaces(s),
    decreases s.len(),
{
    if s.len() > 0 {
        lemma_lower_preserves_space(s.last());
        assert(lower_seq(s).last() == lower_char(s.last()));
        assert(lower_seq(s).drop_last() =~= lower_seq(s.drop_last()));
        lemma_trailing_spaces_lower(s.drop_last());
    }
}

/// Case folding and whitespace trimming commute.
pub proof fn lemma_trim_lower_commute(s: Seq<char>)
    ensures
        trim_spec(lower_seq(s)) == lower_seq(trim_spec(s)),
{
    lemma_leading_spaces_lower(s);
    lemma_trailing_spaces_lower(s);
    lemma_spaces_bounds(s);
    let lo = leading_spaces(s);
    let hi = s.len() - trailing_spaces(s);
    if lo <= hi {
        assert(trim_spec(lower_seq(s)) =~= lower_seq(trim_spec(s)));
    } else {
        assert(trim_spec(lower_seq(s)) =~= lower_seq(trim_spec(s)));
    }
}

/// Contributing-factor normalization is insensitive to letter case and
/// surrounding whitespace: two raw strings that agree once trimmed and
/// case-folded normalize to the same factor.  In particular a raw string
/// that matches a catalog phrase up to case and surrounding whitespace
/// yields the same factor as the exact phrase itself.
pub proof fn lemma_factor_case_whitespace_insensitive(s1: Seq<char>, s2: Seq<char>)
    requires
        lower_seq(trim_spec(s1)) == lower_seq(trim_spec(s2)),
    ensures
        factor_spec(s1) == factor_spec(s2),
{
    lemma_trim_lower_commute(s1);
    lemma_trim_lower_commute(s2);
}

/// No catalog phrase is empty: a raw string that is empty, or all
/// whitespace, normalizes to absent.
pub proof fn lemma_blank_factor_absent(s: Seq<char>)
    requires
        trim_spec(lower_seq(s)).len() == 0,
    ensures
        factor_spec(s) is None,
{
    reveal_strlit("driverless/runaway vehicle");
    reveal_strlit("listening/using headphones");
    reveal_strlit("eating or drinking");
    reveal_strlit("unsafe lane changing");
    reveal_strlit("cell phone (hand-held)");
    reveal_strlit("cell phone (hands-free)");
    reveal_strlit("drugs (illegal)");
    reveal_strlit("texting");
    reveal_strlit("headlights defective");
    reveal_strlit("other lighting defects");
    reveal_strlit("driver inexperience");
    reveal_strlit("aggressive driving/road rage");
    reveal_strlit("unsafe speed");
    reveal_strlit("lane marking improper/inadequate");
    reveal_strlit("glare");
    reveal_strlit("traffic control device improper/non-working");
    reveal_strlit("passing too closely");
    reveal_strlit("accelerator defective");
    reveal_strlit("shoulders defective/improper");
    reveal_strlit("outside car distraction");
    reveal_strlit("driver inattention/distraction");
    reveal_strlit("tinted windows");
    reveal_strlit("using on board navigation device");
    reveal_strlit("reaction to other uninvolved vehicle");
    reveal_strlit("obstruction/debris");
    reveal_strlit("prescription medication");
    reveal_strlit("tire failure/inadequate");
    reveal_strlit("fatigued/drowsy");
    reveal_strlit("passing or lane usage improper");
    reveal_strlit("following too closely");
    reveal_strlit("view obstructed/limited");
    reveal_strlit("oversized vehicle");
    reveal_strlit("lost consciousness");
    reveal_strlit("backing unsafely");
    reveal_strlit("other vehicular");
    reveal_strlit("illness");
    reveal_strlit("windshield inadequate");
    reveal_strlit("fell asleep");
    reveal_strlit("traffic control disregarded");
    reveal_strlit("pavement defective");
    reveal_strlit("steering failure");
    reveal_strlit("passenger distraction");
    reveal_strlit("vehicle vandalism");
    reveal_strlit("failure to keep right");
    reveal_strlit("brakes defective");
    reveal_strlit("turning improperly");
    reveal_strlit("failure to yield right-of-way");
    reveal_strlit("reaction to uninvolved vehicle");
    reveal_strlit("tow hitch defective");
    reveal_strlit("alcohol involvement");
    reveal_strlit("physical disability");
    reveal_strlit("animals action");
    reveal_strlit("other electronic device");
    reveal_strlit("pedestrian/bicyclist/other pedestrian error/confusion");
    reveal_strlit("pavement slippery");
}

/// Crash normalization is deterministic: any two results for the same
/// raw record are equal.
pub proof fn lemma_crash_normalization_deterministic(c1: Crash, c2: Crash, raw: RawCrashRecord)
    requires
        c1.matches_raw(raw),
        c2.matches_raw(raw),
    ensures
        c1 == c2,
{
}

} // verus!
