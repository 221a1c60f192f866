//! Activities, their navigation points and the fireteams that play them.
use vstd::prelude::*;
use crate::error::ParseEnumError;
use crate::text::{decimal, format_decimal, str_eq};
use crate::flags::{is_single_bit, lemma_single_bits_disjoint};
use std::collections::HashMap;

verus! {

/// The various known UI styles in which an item can be highlighted. It'll be up to you to determine what you want to show based on this highlighting, BNet doesn't have any assets that correspond to these states. And yeah, RiseOfIron and Comet have their own special highlight states. Don't ask me, I can't imagine they're still used.
///
/// The number that stands for a variant on the wire is `value()`; an `as`
/// cast gives the variant's position in the list instead.
#[derive(Clone, Copy, Debug, PartialEq, Eq, Hash, Structural)]
pub enum ActivityGraphNodeHighlightType {
    /// The API calls this variant `None`; `from_str` reads that name.
    None_,
    Normal,
    Hyper,
    Comet,
    RiseOfIron,
}

impl ActivityGraphNodeHighlightType {
    /// The name of the variant, the text that `from_str` reads.
    pub open spec fn spec_name(self) -> Seq<char> {
        match self {
            ActivityGraphNodeHighlightType::None_ => "None"@,
            ActivityGraphNodeHighlightType::Normal => "Normal"@,
            ActivityGraphNodeHighlightType::Hyper => "Hyper"@,
            ActivityGraphNodeHighlightType::Comet => "Comet"@,
            ActivityGraphNodeHighlightType::RiseOfIron => "RiseOfIron"@,
        }
    }

    /// The number that stands for the variant on the wire.
    pub open spec fn spec_value(self) -> i32 {
        match self {
            ActivityGraphNodeHighlightType::None_ => 0,
            ActivityGraphNodeHighlightType::Normal => 1,
            ActivityGraphNodeHighlightType::Hyper => 2,
            ActivityGraphNodeHighlightType::Comet => 3,
            ActivityGraphNodeHighlightType::RiseOfIron => 4,
        }
    }

    /// The number that stands for the variant on the wire.
    pub fn value(&self) -> (v: i32)
        ensures
            v == self.spec_value(),
    {
        match self {
            ActivityGraphNodeHighlightType::None_ => 0,
            ActivityGraphNodeHighlightType::Normal => 1,
            ActivityGraphNodeHighlightType::Hyper => 2,
            ActivityGraphNodeHighlightType::Comet => 3,
            ActivityGraphNodeHighlightType::RiseOfIron => 4,
        }
    }

    /// The variant's number written in decimal.
    pub fn to_string(&self) -> (s: String)
        ensures
            s@ == decimal(self.spec_value() as nat),
    {
        let v = self.value();
        format_decimal(v as u32)
    }

    /// The variant named `s`; any other text is refused with an error that
    /// carries it.
    pub fn from_str(s: &str) -> (r: Result<ActivityGraphNodeHighlightType, ParseEnumError>)
        ensures
            r matches Ok(v) ==> v.spec_name() == s@,
            r matches Err(e) ==> e.input@ == s@ && e.target@ == "ActivityGraphNodeHighlightType"@ && (forall|v: ActivityGraphNodeHighlightType| v.spec_name() != s@),
            forall|v: ActivityGraphNodeHighlightType| #[trigger] v.spec_name() == s@ ==> r == Ok::<ActivityGraphNodeHighlightType, ParseEnumError>(v),
    {
        let r = if str_eq(s, "None") {
            Ok(ActivityGraphNodeHighlightType::None_)
        } else if str_eq(s, "Normal") {
            Ok(ActivityGraphNodeHighlightType::Normal)
        } else if str_eq(s, "Hyper") {
            Ok(ActivityGraphNodeHighlightType::Hyper)
        } else if str_eq(s, "Comet") {
            Ok(ActivityGraphNodeHighlightType::Comet)
        } else if str_eq(s, "RiseOfIron") {
            Ok(ActivityGraphNodeHighlightType::RiseOfIron)
        } else {
            Err(ParseEnumError::new(s, "ActivityGraphNodeHighlightType"))
        };
        proof {
            assert forall|v: ActivityGraphNodeHighlightType| #[trigger] v.spec_name() == s@ implies r == Ok::<ActivityGraphNodeHighlightType, ParseEnumError>(v) by {
                if let Ok(w) = r {
                    ActivityGraphNodeHighlightType::lemma_names_distinct(v, w);
                }
            }
        }
        r
    }

    /// Distinct variants have distinct names.
    pub proof fn lemma_names_distinct(a: ActivityGraphNodeHighlightType, b: ActivityGraphNodeHighlightType)
        ensures
            a.spec_name() == b.spec_name() ==> a == b,
    {
        reveal_strlit("None");
        assert("None"@.len() == 4);
        reveal_strlit("Normal");
        assert("Normal"@.len() == 6);
        reveal_strlit("Hyper");
        assert("Hyper"@.len() == 5);
        reveal_strlit("Comet");
        assert("Comet"@.len() == 5);
        reveal_strlit("RiseOfIron");
        assert("RiseOfIron"@.len() == 10);
        assert("Hyper"@[0] != "Comet"@[0]);
    }

    /// Distinct variants have distinct numbers.
    pub proof fn lemma_values_distinct(a: ActivityGraphNodeHighlightType, b: ActivityGraphNodeHighlightType)
        ensures
            a.spec_value() == b.spec_value() ==> a == b,
    {
    }
}

impl core::str::FromStr for ActivityGraphNodeHighlightType {
    type Err = ParseEnumError;

    fn from_str(s: &str) -> (r: Result<ActivityGraphNodeHighlightType, ParseEnumError>)
        ensures
            r matches Ok(v) ==> v.spec_name() == s@,
            r matches Err(e) ==> e.input@ == s@ && e.target@ == "ActivityGraphNodeHighlightType"@ && (forall|v: ActivityGraphNodeHighlightType| v.spec_name() != s@),
            forall|v: ActivityGraphNodeHighlightType| #[trigger] v.spec_name() == s@ ==> r == Ok::<ActivityGraphNodeHighlightType, ParseEnumError>(v),
    {
        ActivityGraphNodeHighlightType::from_str(s)
    }
}

/// The number that stands for a variant on the wire is `value()`; an `as`
/// cast gives the variant's position in the list instead.
#[derive(Clone, Copy, Debug, PartialEq, Eq, Hash, Structural)]
pub enum DestinyActivityNavPointType {
    Inactive,
    PrimaryObjective,
    SecondaryObjective,
    TravelObjective,
    PublicEventObjective,
    AmmoCache,
    PointTypeFlag,
    CapturePoint,
    DefensiveEncounter,
    GhostInteraction,
    KillAi,
    QuestItem,
    PatrolMission,
    Incoming,
    ArenaObjective,
    AutomationHint,
    TrackedQuest,
}

impl DestinyActivityNavPointType {
    /// The name of the variant, the text that `from_str` reads.
    pub open spec fn spec_name(self) -> Seq<char> {
        match self {
            DestinyActivityNavPointType::Inactive => "Inactive"@,
            DestinyActivityNavPointType::PrimaryObjective => "PrimaryObjective"@,
            DestinyActivityNavPointType::SecondaryObjective => "SecondaryObjective"@,
            DestinyActivityNavPointType::TravelObjective => "TravelObjective"@,
            DestinyActivityNavPointType::PublicEventObjective => "PublicEventObjective"@,
            DestinyActivityNavPointType::AmmoCache => "AmmoCache"@,
            DestinyActivityNavPointType::PointTypeFlag => "PointTypeFlag"@,
            DestinyActivityNavPointType::CapturePoint => "CapturePoint"@,
            DestinyActivityNavPointType::DefensiveEncounter => "DefensiveEncounter"@,
            DestinyActivityNavPointType::GhostInteraction => "GhostInteraction"@,
            DestinyActivityNavPointType::KillAi => "KillAi"@,
            DestinyActivityNavPointType::QuestItem => "QuestItem"@,
            DestinyActivityNavPointType::PatrolMission => "PatrolMission"@,
            DestinyActivityNavPointType::Incoming => "Incoming"@,
            DestinyActivityNavPointType::ArenaObjective => "ArenaObjective"@,
            DestinyActivityNavPointType::AutomationHint => "AutomationHint"@,
            DestinyActivityNavPointType::TrackedQuest => "TrackedQuest"@,
        }
    }

    /// The number that stands for the variant on the wire.
    pub open spec fn spec_value(self) -> i32 {
        match self {
            DestinyActivityNavPointType::Inactive => 0,
            DestinyActivityNavPointType::PrimaryObjective => 1,
            DestinyActivityNavPointType::SecondaryObjective => 2,
            DestinyActivityNavPointType::TravelObjective => 3,
            DestinyActivityNavPointType::PublicEventObjective => 4,
            DestinyActivityNavPointType::AmmoCache => 5,
            DestinyActivityNavPointType::PointTypeFlag => 6,
            DestinyActivityNavPointType::CapturePoint => 7,
            DestinyActivityNavPointType::DefensiveEncounter => 8,
            DestinyActivityNavPointType::GhostInteraction => 9,
            DestinyActivityNavPointType::KillAi => 10,
            DestinyActivityNavPointType::QuestItem => 11,
            DestinyActivityNavPointType::PatrolMission => 12,
            DestinyActivityNavPointType::Incoming => 13,
            DestinyActivityNavPointType::ArenaObjective => 14,
            DestinyActivityNavPointType::AutomationHint => 15,
            DestinyActivityNavPointType::TrackedQuest => 16,
        }
    }

    /// The number that stands for the variant on the wire.
    pub fn value(&self) -> (v: i32)
        ensures
            v == self.spec_value(),
    {
        match self {
            DestinyActivityNavPointType::Inactive => 0,
            DestinyActivityNavPointType::PrimaryObjective => 1,
            DestinyActivityNavPointType::SecondaryObjective => 2,
            DestinyActivityNavPointType::TravelObjective => 3,
            DestinyActivityNavPointType::PublicEventObjective => 4,
            DestinyActivityNavPointType::AmmoCache => 5,
            DestinyActivityNavPointType::PointTypeFlag => 6,
            DestinyActivityNavPointType::CapturePoint => 7,
            DestinyActivityNavPointType::DefensiveEncounter => 8,
            DestinyActivityNavPointType::GhostInteraction => 9,
            DestinyActivityNavPointType::KillAi => 10,
            DestinyActivityNavPointType::QuestItem => 11,
            DestinyActivityNavPointType::PatrolMission => 12,
            DestinyActivityNavPointType::Incoming => 13,
            DestinyActivityNavPointType::ArenaObjective => 14,
            DestinyActivityNavPointType::AutomationHint => 15,
            DestinyActivityNavPointType::TrackedQuest => 16,
        }
    }

    /// The variant's number written in decimal.
    pub fn to_string(&self) -> (s: String)
        ensures
            s@ == decimal(self.spec_value() as nat),
    {
        let v = self.value();
        format_decimal(v as u32)
    }

    /// The variant named `s`; any other text is refused with an error that
    /// carries it.
    pub fn from_str(s: &str) -> (r: Result<DestinyActivityNavPointType, ParseEnumError>)
        ensures
            r matches Ok(v) ==> v.spec_name() == s@,
            r matches Err(e) ==> e.input@ == s@ && e.target@ == "DestinyActivityNavPointType"@ && (forall|v: DestinyActivityNavPointType| v.spec_name() != s@),
            forall|v: DestinyActivityNavPointType| #[trigger] v.spec_name() == s@ ==> r == Ok::<DestinyActivityNavPointType, ParseEnumError>(v),
    {
        let r = if str_eq(s, "Inactive") {
            Ok(DestinyActivityNavPointType::Inactive)
        } else if str_eq(s, "PrimaryObjective") {
            Ok(DestinyActivityNavPointType::PrimaryObjective)
        } else if str_eq(s, "SecondaryObjective") {
            Ok(DestinyActivityNavPointType::SecondaryObjective)
        } else if str_eq(s, "TravelObjective") {
            Ok(DestinyActivityNavPointType::TravelObjective)
        } else if str_eq(s, "PublicEventObjective") {
            Ok(DestinyActivityNavPointType::PublicEventObjective)
        } else if str_eq(s, "AmmoCache") {
            Ok(DestinyActivityNavPointType::AmmoCache)
        } else if str_eq(s, "PointTypeFlag") {
            Ok(DestinyActivityNavPointType::PointTypeFlag)
        } else if str_eq(s, "CapturePoint") {
            Ok(DestinyActivityNavPointType::CapturePoint)
        } else if str_eq(s, "DefensiveEncounter") {
            Ok(DestinyActivityNavPointType::DefensiveEncounter)
        } else if str_eq(s, "GhostInteraction") {
            Ok(DestinyActivityNavPointType::GhostInteraction)
        } else if str_eq(s, "KillAi") {
            Ok(DestinyActivityNavPointType::KillAi)
        } else if str_eq(s, "QuestItem") {
            Ok(DestinyActivityNavPointType::QuestItem)
        } else if str_eq(s, "PatrolMission") {
            Ok(DestinyActivityNavPointType::PatrolMission)
        } else if str_eq(s, "Incoming") {
            Ok(DestinyActivityNavPointType::Incoming)
        } else if str_eq(s, "ArenaObjective") {
            Ok(DestinyActivityNavPointType::ArenaObjective)
        } else if str_eq(s, "AutomationHint") {
            Ok(DestinyActivityNavPointType::AutomationHint)
        } else if str_eq(s, "TrackedQuest") {
            Ok(DestinyActivityNavPointType::TrackedQuest)
        } else {
            Err(ParseEnumError::new(s, "DestinyActivityNavPointType"))
        };
        proof {
            assert forall|v: DestinyActivityNavPointType| #[trigger] v.spec_name() == s@ implies r == Ok::<DestinyActivityNavPointType, ParseEnumError>(v) by {
                if let Ok(w) = r {
                    DestinyActivityNavPointType::lemma_names_distinct(v, w);
                }
            }
        }
        r
    }

    /// Distinct variants have distinct names.
    pub proof fn lemma_names_distinct(a: DestinyActivityNavPointType, b: DestinyActivityNavPointType)
        ensures
            a.spec_name() == b.spec_name() ==> a == b,
    {
        reveal_strlit("Inactive");
        assert("Inactive"@.len() == 8);
        reveal_strlit("PrimaryObjective");
        assert("PrimaryObjective"@.len() == 16);
        reveal_strlit("SecondaryObjective");
        assert("SecondaryObjective"@.len() == 18);
        reveal_strlit("TravelObjective");
        assert("TravelObjective"@.len() == 15);
        reveal_strlit("PublicEventObjective");
        assert("PublicEventObjective"@.len() == 20);
        reveal_strlit("AmmoCache");
        assert("AmmoCache"@.len() == 9);
        reveal_strlit("PointTypeFlag");
        assert("PointTypeFlag"@.len() == 13);
        reveal_strlit("CapturePoint");
        assert("CapturePoint"@.len() == 12);
        reveal_strlit("DefensiveEncounter");
        assert("DefensiveEncounter"@.len() == 18);
        reveal_strlit("GhostInteraction");
        assert("GhostInteraction"@.len() == 16);
        reveal_strlit("KillAi");
        assert("KillAi"@.len() == 6);
        reveal_strlit("QuestItem");
        assert("QuestItem"@.len() == 9);
        reveal_strlit("PatrolMission");
        assert("PatrolMission"@.len() == 13);
        reveal_strlit("Incoming");
        assert("Incoming"@.len() == 8);
        reveal_strlit("ArenaObjective");
        assert("ArenaObjective"@.len() == 14);
        reveal_strlit("AutomationHint");
        assert("AutomationHint"@.len() == 14);
        reveal_strlit("TrackedQuest");
        assert("TrackedQuest"@.len() == 12);
        assert("Inactive"@[2] != "Incoming"@[2]);
        assert("PrimaryObjective"@[0] != "GhostInteraction"@[0]);
        assert("SecondaryObjective"@[0] != "DefensiveEncounter"@[0]);
        assert("AmmoCache"@[0] != "QuestItem"@[0]);
        assert("PointTypeFlag"@[1] != "PatrolMission"@[1]);
        assert("CapturePoint"@[0] != "TrackedQuest"@[0]);
        assert("ArenaObjective"@[1] != "AutomationHint"@[1]);
    }

    /// Distinct variants have distinct numbers.
    pub proof fn lemma_values_distinct(a: DestinyActivityNavPointType, b: DestinyActivityNavPointType)
        ensures
            a.spec_value() == b.spec_value() ==> a == b,
    {
    }
}

impl core::str::FromStr for DestinyActivityNavPointType {
    type Err = ParseEnumError;

    fn from_str(s: &str) -> (r: Result<DestinyActivityNavPointType, ParseEnumError>)
        ensures
            r matches Ok(v) ==> v.spec_name() == s@,
            r matches Err(e) ==> e.input@ == s@ && e.target@ == "DestinyActivityNavPointType"@ && (forall|v: DestinyActivityNavPointType| v.spec_name() != s@),
            forall|v: DestinyActivityNavPointType| #[trigger] v.spec_name() == s@ ==> r == Ok::<DestinyActivityNavPointType, ParseEnumError>(v),
    {
        DestinyActivityNavPointType::from_str(s)
    }
}

/// Activity Modes are grouped into a few possible broad categories.
///
/// The number that stands for a variant on the wire is `value()`; an `as`
/// cast gives the variant's position in the list instead.
#[derive(Clone, Copy, Debug, PartialEq, Eq, Hash, Structural)]
pub enum DestinyActivityModeCategory {
    /// Activities that are neither PVP nor PVE, such as social activities.
    ///
    /// The API calls this variant `None`; `from_str` reads that name.
    None_,
    /// PvE activities, where you shoot aliens in the face.
    PvE,
    /// PvP activities, where you shoot your "friends".
    PvP,
    /// PVE competitive activities, where you shoot whoever you want whenever you want. Or run around collecting small glowing triangles.
    PvECompetitive,
}

impl DestinyActivityModeCategory {
    /// The name of the variant, the text that `from_str` reads.
    pub open spec fn spec_name(self) -> Seq<char> {
        match self {
            DestinyActivityModeCategory::None_ => "None"@,
            DestinyActivityModeCategory::PvE => "PvE"@,
            DestinyActivityModeCategory::PvP => "PvP"@,
            DestinyActivityModeCategory::PvECompetitive => "PvECompetitive"@,
        }
    }

    /// The number that stands for the variant on the wire.
    pub open spec fn spec_value(self) -> i32 {
        match self {
            DestinyActivityModeCategory::None_ => 0,
            DestinyActivityModeCategory::PvE => 1,
            DestinyActivityModeCategory::PvP => 2,
            DestinyActivityModeCategory::PvECompetitive => 3,
        }
    }

    /// The number that stands for the variant on the wire.
    pub fn value(&self) -> (v: i32)
        ensures
            v == self.spec_value(),
    {
        match self {
            DestinyActivityModeCategory::None_ => 0,
            DestinyActivityModeCategory::PvE => 1,
            DestinyActivityModeCategory::PvP => 2,
            DestinyActivityModeCategory::PvECompetitive => 3,
        }
    }

    /// The variant's number written in decimal.
    pub fn to_string(&self) -> (s: String)
        ensures
            s@ == decimal(self.spec_value() as nat),
    {
        let v = self.value();
        format_decimal(v as u32)
    }

    /// The variant named `s`; any other text is refused with an error that
    /// carries it.
    pub fn from_str(s: &str) -> (r: Result<DestinyActivityModeCategory, ParseEnumError>)
        ensures
            r matches Ok(v) ==> v.spec_name() == s@,
            r matches Err(e) ==> e.input@ == s@ && e.target@ == "DestinyActivityModeCategory"@ && (forall|v: DestinyActivityModeCategory| v.spec_name() != s@),
            forall|v: DestinyActivityModeCategory| #[trigger] v.spec_name() == s@ ==> r == Ok::<DestinyActivityModeCategory, ParseEnumError>(v),
    {
        let r = if str_eq(s, "None") {
            Ok(DestinyActivityModeCategory::None_)
        } else if str_eq(s, "PvE") {
            Ok(DestinyActivityModeCategory::PvE)
        } else if str_eq(s, "PvP") {
            Ok(DestinyActivityModeCategory::PvP)
        } else if str_eq(s, "PvECompetitive") {
            Ok(DestinyActivityModeCategory::PvECompetitive)
        } else {
            Err(ParseEnumError::new(s, "DestinyActivityModeCategory"))
        };
        proof {
            assert forall|v: DestinyActivityModeCategory| #[trigger] v.spec_name() == s@ implies r == Ok::<DestinyActivityModeCategory, ParseEnumError>(v) by {
                if let Ok(w) = r {
                    DestinyActivityModeCategory::lemma_names_distinct(v, w);
                }
            }
        }
        r
    }

    /// Distinct variants have distinct names.
    pub proof fn lemma_names_distinct(a: DestinyActivityModeCategory, b: DestinyActivityModeCategory)
        ensures
            a.spec_name() == b.spec_name() ==> a == b,
    {
        reveal_strlit("None");
        assert("None"@.len() == 4);
        reveal_strlit("PvE");
        assert("PvE"@.len() == 3);
        reveal_strlit("PvP");
        assert("PvP"@.len() == 3);
        reveal_strlit("PvECompetitive");
        assert("PvECompetitive"@.len() == 14);
        assert("PvE"@[2] != "PvP"@[2]);
    }

    /// Distinct variants have distinct numbers.
    pub proof fn lemma_values_distinct(a: DestinyActivityModeCategory, b: DestinyActivityModeCategory)
        ensures
            a.spec_value() == b.spec_value() ==> a == b,
    {
    }
}

impl core::str::FromStr for DestinyActivityModeCategory {
    type Err = ParseEnumError;

    fn from_str(s: &str) -> (r: Result<DestinyActivityModeCategory, ParseEnumError>)
        ensures
            r matches Ok(v) ==> v.spec_name() == s@,
            r matches Err(e) ==> e.input@ == s@ && e.target@ == "DestinyActivityModeCategory"@ && (forall|v: DestinyActivityModeCategory| v.spec_name() != s@),
            forall|v: DestinyActivityModeCategory| #[trigger] v.spec_name() == s@ ==> r == Ok::<DestinyActivityModeCategory, ParseEnumError>(v),
    {
        DestinyActivityModeCategory::from_str(s)
    }
}

/// Represents the "Live" data that we can obtain about a Character's status with a specific Activity. This will tell you whether the character can participate in the activity, as well as some other basic mutable information.
/// Meant to be combined with static DestinyActivityDefinition data for a full picture of the Activity.
///
/// The API also sends a `challenges` list of DestinyChallengeStatus records;
/// this library does not define that type, so the list is not held here.
#[derive(Clone, Debug, PartialEq)]
pub struct DestinyActivity {
    /// The hash identifier of the Activity. Use this to look up the DestinyActivityDefinition of the activity.
    pub activity_hash: u32,

    /// If true, then the activity should have a "new" indicator in the Director UI.
    pub is_new: bool,

    /// If true, the user is allowed to lead a Fireteam into this activity.
    pub can_lead: bool,

    /// If true, the user is allowed to join with another Fireteam in this activity.
    pub can_join: bool,

    /// If true, we both have the ability to know that the user has completed this activity and they have completed it. Unfortunately, we can't necessarily know this for all activities. As such, this should probably only be used if you already know in advance which specific activities you wish to check.
    pub is_completed: bool,

    /// If true, the user should be able to see this activity.
    pub is_visible: bool,

    /// The difficulty level of the activity, if applicable.
    pub display_level: Option<i32>,

    /// The recommended light level for the activity, if applicable.
    pub recommended_light: Option<i32>,

    /// A DestinyActivityDifficultyTier enum value indicating the difficulty of the activity.
    pub difficulty_tier: DestinyActivityDifficultyTier,

    /// If the activity has modifiers, this will be the list of modifiers that all variants have in common. Perform lookups against DestinyActivityModifierDefinition which defines the modifier being applied to get at the modifier data.
    /// Note that, in the DestiyActivityDefinition, you will see many more modifiers than this being referred to: those are all *possible* modifiers for the activity, not the active ones. Use only the active ones to match what's really live.
    pub modifier_hashes: Option<Vec<u32>>,

    /// The set of activity options for this activity, keyed by an identifier that's unique for this activity (not guaranteed to be unique between or across all activities, though should be unique for every *variant* of a given *conceptual* activity: for instance, the original D2 Raid has many variant DestinyActivityDefinitions. While other activities could potentially have the same option hashes, for any given D2 base Raid variant the hash will be unique).
    /// As a concrete example of this data, the hashes you get for Raids will correspond to the currently active "Challenge Mode".
    /// We don't have any human readable information for these, but saavy 3rd party app users could manually associate the key (a hash identifier for the "option" that is enabled/disabled) and the value (whether it's enabled or disabled presently)
    /// On our side, we don't necessarily even know what these are used for (the game designers know, but we don't), and we have no human readable data for them. In order to use them, you will have to do some experimentation.
    pub boolean_activity_options: Option<HashMap<u32, bool>>,

    /// If returned, this is the index into the DestinyActivityDefinition's "loadouts" property, indicating the currently active loadout requirements.
    pub loadout_requirement_index: Option<i32>,
}

/// An enumeration representing the potential difficulty levels of an activity. Their names are... more qualitative than quantitative.
///
/// The number that stands for a variant on the wire is `value()`; an `as`
/// cast gives the variant's position in the list instead.
#[derive(Clone, Copy, Debug, PartialEq, Eq, Hash, Structural)]
pub enum DestinyActivityDifficultyTier {
    Trivial,
    Easy,
    Normal,
    Challenging,
    Hard,
    Brave,
    AlmostImpossible,
    Impossible,
}

impl DestinyActivityDifficultyTier {
    /// The name of the variant, the text that `from_str` reads.
    pub open spec fn spec_name(self) -> Seq<char> {
        match self {
            DestinyActivityDifficultyTier::Trivial => "Trivial"@,
            DestinyActivityDifficultyTier::Easy => "Easy"@,
            DestinyActivityDifficultyTier::Normal => "Normal"@,
            DestinyActivityDifficultyTier::Challenging => "Challenging"@,
            DestinyActivityDifficultyTier::Hard => "Hard"@,
            DestinyActivityDifficultyTier::Brave => "Brave"@,
            DestinyActivityDifficultyTier::AlmostImpossible => "AlmostImpossible"@,
            DestinyActivityDifficultyTier::Impossible => "Impossible"@,
        }
    }

    /// The number that stands for the variant on the wire.
    pub open spec fn spec_value(self) -> i32 {
        match self {
            DestinyActivityDifficultyTier::Trivial => 0,
            DestinyActivityDifficultyTier::Easy => 1,
            DestinyActivityDifficultyTier::Normal => 2,
            DestinyActivityDifficultyTier::Challenging => 3,
            DestinyActivityDifficultyTier::Hard => 4,
            DestinyActivityDifficultyTier::Brave => 5,
            DestinyActivityDifficultyTier::AlmostImpossible => 6,
            DestinyActivityDifficultyTier::Impossible => 7,
        }
    }

    /// The number that stands for the variant on the wire.
    pub fn value(&self) -> (v: i32)
        ensures
            v == self.spec_value(),
    {
        match self {
            DestinyActivityDifficultyTier::Trivial => 0,
            DestinyActivityDifficultyTier::Easy => 1,
            DestinyActivityDifficultyTier::Normal => 2,
            DestinyActivityDifficultyTier::Challenging => 3,
            DestinyActivityDifficultyTier::Hard => 4,
            DestinyActivityDifficultyTier::Brave => 5,
            DestinyActivityDifficultyTier::AlmostImpossible => 6,
            DestinyActivityDifficultyTier::Impossible => 7,
        }
    }

    /// The variant's number written in decimal.
    pub fn to_string(&self) -> (s: String)
        ensures
            s@ == decimal(self.spec_value() as nat),
    {
        let v = self.value();
        format_decimal(v as u32)
    }

    /// The variant named `s`; any other text is refused with an error that
    /// carries it.
    pub fn from_str(s: &str) -> (r: Result<DestinyActivityDifficultyTier, ParseEnumError>)
        ensures
            r matches Ok(v) ==> v.spec_name() == s@,
            r matches Err(e) ==> e.input@ == s@ && e.target@ == "DestinyActivityDifficultyTier"@ && (forall|v: DestinyActivityDifficultyTier| v.spec_name() != s@),
            forall|v: DestinyActivityDifficultyTier| #[trigger] v.spec_name() == s@ ==> r == Ok::<DestinyActivityDifficultyTier, ParseEnumError>(v),
    {
        let r = if str_eq(s, "Trivial") {
            Ok(DestinyActivityDifficultyTier::Trivial)
        } else if str_eq(s, "Easy") {
            Ok(DestinyActivityDifficultyTier::Easy)
        } else if str_eq(s, "Normal") {
            Ok(DestinyActivityDifficultyTier::Normal)
        } else if str_eq(s, "Challenging") {
            Ok(DestinyActivityDifficultyTier::Challenging)
        } else if str_eq(s, "Hard") {
            Ok(DestinyActivityDifficultyTier::Hard)
        } else if str_eq(s, "Brave") {
            Ok(DestinyActivityDifficultyTier::Brave)
        } else if str_eq(s, "AlmostImpossible") {
            Ok(DestinyActivityDifficultyTier::AlmostImpossible)
        } else if str_eq(s, "Impossible") {
            Ok(DestinyActivityDifficultyTier::Impossible)
        } else {
            Err(ParseEnumError::new(s, "DestinyActivityDifficultyTier"))
        };
        proof {
            assert forall|v: DestinyActivityDifficultyTier| #[trigger] v.spec_name() == s@ implies r == Ok::<DestinyActivityDifficultyTier, ParseEnumError>(v) by {
                if let Ok(w) = r {
                    DestinyActivityDifficultyTier::lemma_names_distinct(v, w);
                }
            }
        }
        r
    }

    /// Distinct variants have distinct names.
    pub proof fn lemma_names_distinct(a: DestinyActivityDifficultyTier, b: DestinyActivityDifficultyTier)
        ensures
            a.spec_name() == b.spec_name() ==> a == b,
    {
        reveal_strlit("Trivial");
        assert("Trivial"@.len() == 7);
        reveal_strlit("Easy");
        assert("Easy"@.len() == 4);
        reveal_strlit("Normal");
        assert("Normal"@.len() == 6);
        reveal_strlit("Challenging");
        assert("Challenging"@.len() == 11);
        reveal_strlit("Hard");
        assert("Hard"@.len() == 4);
        reveal_strlit("Brave");
        assert("Brave"@.len() == 5);
        reveal_strlit("AlmostImpossible");
        assert("AlmostImpossible"@.len() == 16);
        reveal_strlit("Impossible");
        assert("Impossible"@.len() == 10);
        assert("Easy"@[0] != "Hard"@[0]);
    }

    /// Distinct variants have distinct numbers.
    pub proof fn lemma_values_distinct(a: DestinyActivityDifficultyTier, b: DestinyActivityDifficultyTier)
        ensures
            a.spec_value() == b.spec_value() ==> a == b,
    {
    }
}

impl core::str::FromStr for DestinyActivityDifficultyTier {
    type Err = ParseEnumError;

    fn from_str(s: &str) -> (r: Result<DestinyActivityDifficultyTier, ParseEnumError>)
        ensures
            r matches Ok(v) ==> v.spec_name() == s@,
            r matches Err(e) ==> e.input@ == s@ && e.target@ == "DestinyActivityDifficultyTier"@ && (forall|v: DestinyActivityDifficultyTier| v.spec_name() != s@),
            forall|v: DestinyActivityDifficultyTier| #[trigger] v.spec_name() == s@ ==> r == Ok::<DestinyActivityDifficultyTier, ParseEnumError>(v),
    {
        DestinyActivityDifficultyTier::from_str(s)
    }
}

/// A flags enumeration that represents a Fireteam Member's status.
///
/// The number that stands for a variant on the wire is `value()`; an `as`
/// cast gives the variant's position in the list instead.
///
/// Each variant is one flag: its number has exactly one bit set.
#[derive(Clone, Copy, Debug, PartialEq, Eq, Hash, Structural)]
pub enum DestinyPartyMemberStates {
    /// This one's pretty obvious - they're on your Fireteam.
    FireteamMember,
    /// I don't know what it means to be in a 'Posse', but apparently this is it.
    PosseMember,
    /// Nor do I understand the difference between them being in a 'Group' vs. a 'Fireteam'.
    /// I'll update these docs once I get more info. If I get more info. If you're reading this, I never got more info. You're on your own, kid.
    GroupMember,
    /// This person is the party leader.
    PartyLeader,
}

impl DestinyPartyMemberStates {
    /// The name of the variant, the text that `from_str` reads.
    pub open spec fn spec_name(self) -> Seq<char> {
        match self {
            DestinyPartyMemberStates::FireteamMember => "FireteamMember"@,
            DestinyPartyMemberStates::PosseMember => "PosseMember"@,
            DestinyPartyMemberStates::GroupMember => "GroupMember"@,
            DestinyPartyMemberStates::PartyLeader => "PartyLeader"@,
        }
    }

    /// The number that stands for the variant on the wire.
    pub open spec fn spec_value(self) -> u32 {
        match self {
            DestinyPartyMemberStates::FireteamMember => 1,
            DestinyPartyMemberStates::PosseMember => 2,
            DestinyPartyMemberStates::GroupMember => 4,
            DestinyPartyMemberStates::PartyLeader => 8,
        }
    }

    /// The number that stands for the variant on the wire.
    pub fn value(&self) -> (v: u32)
        ensures
            v == self.spec_value(),
    {
        match self {
            DestinyPartyMemberStates::FireteamMember => 1,
            DestinyPartyMemberStates::PosseMember => 2,
            DestinyPartyMemberStates::GroupMember => 4,
            DestinyPartyMemberStates::PartyLeader => 8,
        }
    }

    /// The variant's number written in decimal.
    pub fn to_string(&self) -> (s: String)
        ensures
            s@ == decimal(self.spec_value() as nat),
    {
        format_decimal(self.value())
    }

    /// The variant named `s`; any other text is refused with an error that
    /// carries it.
    pub fn from_str(s: &str) -> (r: Result<DestinyPartyMemberStates, ParseEnumError>)
        ensures
            r matches Ok(v) ==> v.spec_name() == s@,
            r matches Err(e) ==> e.input@ == s@ && e.target@ == "DestinyPartyMemberStates"@ && (forall|v: DestinyPartyMemberStates| v.spec_name() != s@),
            forall|v: DestinyPartyMemberStates| #[trigger] v.spec_name() == s@ ==> r == Ok::<DestinyPartyMemberStates, ParseEnumError>(v),
    {
        let r = if str_eq(s, "FireteamMember") {
            Ok(DestinyPartyMemberStates::FireteamMember)
        } else if str_eq(s, "PosseMember") {
            Ok(DestinyPartyMemberStates::PosseMember)
        } else if str_eq(s, "GroupMember") {
            Ok(DestinyPartyMemberStates::GroupMember)
        } else if str_eq(s, "PartyLeader") {
            Ok(DestinyPartyMemberStates::PartyLeader)
        } else {
            Err(ParseEnumError::new(s, "DestinyPartyMemberStates"))
        };
        proof {
            assert forall|v: DestinyPartyMemberStates| #[trigger] v.spec_name() == s@ implies r == Ok::<DestinyPartyMemberStates, ParseEnumError>(v) by {
                if let Ok(w) = r {
                    DestinyPartyMemberStates::lemma_names_distinct(v, w);
                }
            }
        }
        r
    }

    /// Distinct variants have distinct names.
    pub proof fn lemma_names_distinct(a: DestinyPartyMemberStates, b: DestinyPartyMemberStates)
        ensures
            a.spec_name() == b.spec_name() ==> a == b,
    {
        reveal_strlit("FireteamMember");
        assert("FireteamMember"@.len() == 14);
        reveal_strlit("PosseMember");
        assert("PosseMember"@.len() == 11);
        reveal_strlit("GroupMember");
        assert("GroupMember"@.len() == 11);
        reveal_strlit("PartyLeader");
        assert("PartyLeader"@.len() == 11);
        assert("PosseMember"@[0] != "GroupMember"@[0]);
        assert("PosseMember"@[1] != "PartyLeader"@[1]);
        assert("GroupMember"@[0] != "PartyLeader"@[0]);
    }

    /// Distinct variants have distinct numbers.
    pub proof fn lemma_values_distinct(a: DestinyPartyMemberStates, b: DestinyPartyMemberStates)
        ensures
            a.spec_value() == b.spec_value() ==> a == b,
    {
    }

    /// The number of every variant has exactly one bit set.
    pub proof fn lemma_single_bit(v: DestinyPartyMemberStates)
        ensures
            is_single_bit(v.spec_value()),
    {
        assert(is_single_bit(1u32) && is_single_bit(2u32) && is_single_bit(4u32) && is_single_bit(8u32)) by (bit_vector);
    }

    /// Distinct variants share no bit of their numbers.
    pub proof fn lemma_flags_disjoint(a: DestinyPartyMemberStates, b: DestinyPartyMemberStates)
        ensures
            a != b ==> a.spec_value() & b.spec_value() == 0,
    {
        if a != b {
            DestinyPartyMemberStates::lemma_single_bit(a);
            DestinyPartyMemberStates::lemma_single_bit(b);
            DestinyPartyMemberStates::lemma_values_distinct(a, b);
            lemma_single_bits_disjoint(a.spec_value(), b.spec_value());
        }
    }
}

impl core::str::FromStr for DestinyPartyMemberStates {
    type Err = ParseEnumError;

    fn from_str(s: &str) -> (r: Result<DestinyPartyMemberStates, ParseEnumError>)
        ensures
            r matches Ok(v) ==> v.spec_name() == s@,
            r matches Err(e) ==> e.input@ == s@ && e.target@ == "DestinyPartyMemberStates"@ && (forall|v: DestinyPartyMemberStates| v.spec_name() != s@),
            forall|v: DestinyPartyMemberStates| #[trigger] v.spec_name() == s@ ==> r == Ok::<DestinyPartyMemberStates, ParseEnumError>(v),
    {
        DestinyPartyMemberStates::from_str(s)
    }
}

/// A player can choose to restrict requests to join their Fireteam to specific states. These are the possible states a user can choose.
///
/// The number that stands for a variant on the wire is `value()`; an `as`
/// cast gives the variant's position in the list instead.
#[derive(Clone, Copy, Debug, PartialEq, Eq, Hash, Structural)]
pub enum DestinyGamePrivacySetting {
    Open,
    ClanAndFriendsOnly,
    FriendsOnly,
    InvitationOnly,
    Closed,
}

impl DestinyGamePrivacySetting {
    /// The name of the variant, the text that `from_str` reads.
    pub open spec fn spec_name(self) -> Seq<char> {
        match self {
            DestinyGamePrivacySetting::Open => "Open"@,
            DestinyGamePrivacySetting::ClanAndFriendsOnly => "ClanAndFriendsOnly"@,
            DestinyGamePrivacySetting::FriendsOnly => "FriendsOnly"@,
            DestinyGamePrivacySetting::InvitationOnly => "InvitationOnly"@,
            DestinyGamePrivacySetting::Closed => "Closed"@,
        }
    }

    /// The number that stands for the variant on the wire.
    pub open spec fn spec_value(self) -> i32 {
        match self {
            DestinyGamePrivacySetting::Open => 0,
            DestinyGamePrivacySetting::ClanAndFriendsOnly => 1,
            DestinyGamePrivacySetting::FriendsOnly => 2,
            DestinyGamePrivacySetting::InvitationOnly => 3,
            DestinyGamePrivacySetting::Closed => 4,
        }
    }

    /// The number that stands for the variant on the wire.
    pub fn value(&self) -> (v: i32)
        ensures
            v == self.spec_value(),
    {
        match self {
            DestinyGamePrivacySetting::Open => 0,
            DestinyGamePrivacySetting::ClanAndFriendsOnly => 1,
            DestinyGamePrivacySetting::FriendsOnly => 2,
            DestinyGamePrivacySetting::InvitationOnly => 3,
            DestinyGamePrivacySetting::Closed => 4,
        }
    }

    /// The variant's number written in decimal.
    pub fn to_string(&self) -> (s: String)
        ensures
            s@ == decimal(self.spec_value() as nat),
    {
        let v = self.value();
        format_decimal(v as u32)
    }

    /// The variant named `s`; any other text is refused with an error that
    /// carries it.
    pub fn from_str(s: &str) -> (r: Result<DestinyGamePrivacySetting, ParseEnumError>)
        ensures
            r matches Ok(v) ==> v.spec_name() == s@,
            r matches Err(e) ==> e.input@ == s@ && e.target@ == "DestinyGamePrivacySetting"@ && (forall|v: DestinyGamePrivacySetting| v.spec_name() != s@),
            forall|v: DestinyGamePrivacySetting| #[trigger] v.spec_name() == s@ ==> r == Ok::<DestinyGamePrivacySetting, ParseEnumError>(v),
    {
        let r = if str_eq(s, "Open") {
            Ok(DestinyGamePrivacySetting::Open)
        } else if str_eq(s, "ClanAndFriendsOnly") {
            Ok(DestinyGamePrivacySetting::ClanAndFriendsOnly)
        } else if str_eq(s, "FriendsOnly") {
            Ok(DestinyGamePrivacySetting::FriendsOnly)
        } else if str_eq(s, "InvitationOnly") {
            Ok(DestinyGamePrivacySetting::InvitationOnly)
        } else if str_eq(s, "Closed") {
            Ok(DestinyGamePrivacySetting::Closed)
        } else {
            Err(ParseEnumError::new(s, "DestinyGamePrivacySetting"))
        };
        proof {
            assert forall|v: DestinyGamePrivacySetting| #[trigger] v.spec_name() == s@ implies r == Ok::<DestinyGamePrivacySetting, ParseEnumError>(v) by {
                if let Ok(w) = r {
                    DestinyGamePrivacySetting::lemma_names_distinct(v, w);
                }
            }
        }
        r
    }

    /// Distinct variants have distinct names.
    pub proof fn lemma_names_distinct(a: DestinyGamePrivacySetting, b: DestinyGamePrivacySetting)
        ensures
            a.spec_name() == b.spec_name() ==> a == b,
    {
        reveal_strlit("Open");
        assert("Open"@.len() == 4);
        reveal_strlit("ClanAndFriendsOnly");
        assert("ClanAndFriendsOnly"@.len() == 18);
        reveal_strlit("FriendsOnly");
        assert("FriendsOnly"@.len() == 11);
        reveal_strlit("InvitationOnly");
        assert("InvitationOnly"@.len() == 14);
        reveal_strlit("Closed");
        assert("Closed"@.len() == 6);
    }

    /// Distinct variants have distinct numbers.
    pub proof fn lemma_values_distinct(a: DestinyGamePrivacySetting, b: DestinyGamePrivacySetting)
        ensures
            a.spec_value() == b.spec_value() ==> a == b,
    {
    }
}

impl core::str::FromStr for DestinyGamePrivacySetting {
    type Err = ParseEnumError;

    fn from_str(s: &str) -> (r: Result<DestinyGamePrivacySetting, ParseEnumError>)
        ensures
            r matches Ok(v) ==> v.spec_name() == s@,
            r matches Err(e) ==> e.input@ == s@ && e.target@ == "DestinyGamePrivacySetting"@ && (forall|v: DestinyGamePrivacySetting| v.spec_name() != s@),
            forall|v: DestinyGamePrivacySetting| #[trigger] v.spec_name() == s@ ==> r == Ok::<DestinyGamePrivacySetting, ParseEnumError>(v),
    {
        DestinyGamePrivacySetting::from_str(s)
    }
}

/// A Flags enumeration representing the reasons why a person can't join this user's fireteam.
///
/// The number that stands for a variant on the wire is `value()`; an `as`
/// cast gives the variant's position in the list instead.
///
/// Each variant is one flag: its number has exactly one bit set.
#[derive(Clone, Copy, Debug, PartialEq, Eq, Hash, Structural)]
pub enum DestinyJoinClosedReasons {
    /// The user is currently in matchmaking.
    InMatchmaking,
    /// The user is currently in a loading screen.
    Loading,
    /// The user is in an activity that requires solo play.
    SoloMode,
    /// The user can't be joined for one of a variety of internal reasons. Basically, the game can't let you join at this time, but for reasons that aren't under the control of this user.
    InternalReasons,
    /// The user's current activity/quest/other transitory game state is preventing joining.
    DisallowedByGameState,
    /// The user appears to be offline.
    Offline,
}

impl DestinyJoinClosedReasons {
    /// The name of the variant, the text that `from_str` reads.
    pub open spec fn spec_name(self) -> Seq<char> {
        match self {
            DestinyJoinClosedReasons::InMatchmaking => "InMatchmaking"@,
            DestinyJoinClosedReasons::Loading => "Loading"@,
            DestinyJoinClosedReasons::SoloMode => "SoloMode"@,
            DestinyJoinClosedReasons::InternalReasons => "InternalReasons"@,
            DestinyJoinClosedReasons::DisallowedByGameState => "DisallowedByGameState"@,
            DestinyJoinClosedReasons::Offline => "Offline"@,
        }
    }

    /// The number that stands for the variant on the wire.
    pub open spec fn spec_value(self) -> u32 {
        match self {
            DestinyJoinClosedReasons::InMatchmaking => 1,
            DestinyJoinClosedReasons::Loading => 2,
            DestinyJoinClosedReasons::SoloMode => 4,
            DestinyJoinClosedReasons::InternalReasons => 8,
            DestinyJoinClosedReasons::DisallowedByGameState => 16,
            DestinyJoinClosedReasons::Offline => 32768,
        }
    }

    /// The number that stands for the variant on the wire.
    pub fn value(&self) -> (v: u32)
        ensures
            v == self.spec_value(),
    {
        match self {
            DestinyJoinClosedReasons::InMatchmaking => 1,
            DestinyJoinClosedReasons::Loading => 2,
            DestinyJoinClosedReasons::SoloMode => 4,
            DestinyJoinClosedReasons::InternalReasons => 8,
            DestinyJoinClosedReasons::DisallowedByGameState => 16,
            DestinyJoinClosedReasons::Offline => 32768,
        }
    }

    /// The variant's number written in decimal.
    pub fn to_string(&self) -> (s: String)
        ensures
            s@ == decimal(self.spec_value() as nat),
    {
        format_decimal(self.value())
    }

    /// The variant named `s`; any other text is refused with an error that
    /// carries it.
    pub fn from_str(s: &str) -> (r: Result<DestinyJoinClosedReasons, ParseEnumError>)
        ensures
            r matches Ok(v) ==> v.spec_name() == s@,
            r matches Err(e) ==> e.input@ == s@ && e.target@ == "DestinyJoinClosedReasons"@ && (forall|v: DestinyJoinClosedReasons| v.spec_name() != s@),
            forall|v: DestinyJoinClosedReasons| #[trigger] v.spec_name() == s@ ==> r == Ok::<DestinyJoinClosedReasons, ParseEnumError>(v),
    {
        let r = if str_eq(s, "InMatchmaking") {
            Ok(DestinyJoinClosedReasons::InMatchmaking)
        } else if str_eq(s, "Loading") {
            Ok(DestinyJoinClosedReasons::Loading)
        } else if str_eq(s, "SoloMode") {
            Ok(DestinyJoinClosedReasons::SoloMode)
        } else if str_eq(s, "InternalReasons") {
            Ok(DestinyJoinClosedReasons::InternalReasons)
        } else if str_eq(s, "DisallowedByGameState") {
            Ok(DestinyJoinClosedReasons::DisallowedByGameState)
        } else if str_eq(s, "Offline") {
            Ok(DestinyJoinClosedReasons::Offline)
        } else {
            Err(ParseEnumError::new(s, "DestinyJoinClosedReasons"))
        };
        proof {
            assert forall|v: DestinyJoinClosedReasons| #[trigger] v.spec_name() == s@ implies r == Ok::<DestinyJoinClosedReasons, ParseEnumError>(v) by {
                if let Ok(w) = r {
                    DestinyJoinClosedReasons::lemma_names_distinct(v, w);
                }
            }
        }
        r
    }

    /// Distinct variants have distinct names.
    pub proof fn lemma_names_distinct(a: DestinyJoinClosedReasons, b: DestinyJoinClosedReasons)
        ensures
            a.spec_name() == b.spec_name() ==> a == b,
    {
        reveal_strlit("InMatchmaking");
        assert("InMatchmaking"@.len() == 13);
        reveal_strlit("Loading");
        assert("Loading"@.len() == 7);
        reveal_strlit("SoloMode");
        assert("SoloMode"@.len() == 8);
        reveal_strlit("InternalReasons");
        assert("InternalReasons"@.len() == 15);
        reveal_strlit("DisallowedByGameState");
        assert("DisallowedByGameState"@.len() == 21);
        reveal_strlit("Offline");
        assert("Offline"@.len() == 7);
        assert("Loading"@[0] != "Offline"@[0]);
    }

    /// Distinct variants have distinct numbers.
    pub proof fn lemma_values_distinct(a: DestinyJoinClosedReasons, b: DestinyJoinClosedReasons)
        ensures
            a.spec_value() == b.spec_value() ==> a == b,
    {
    }

    /// The number of every variant has exactly one bit set.
    pub proof fn lemma_single_bit(v: DestinyJoinClosedReasons)
        ensures
            is_single_bit(v.spec_value()),
    {
        assert(is_single_bit(1u32) && is_single_bit(2u32) && is_single_bit(4u32) && is_single_bit(8u32) && is_single_bit(16u32) && is_single_bit(32768u32)) by (bit_vector);
    }

    /// Distinct variants share no bit of their numbers.
    pub proof fn lemma_flags_disjoint(a: DestinyJoinClosedReasons, b: DestinyJoinClosedReasons)
        ensures
            a != b ==> a.spec_value() & b.spec_value() == 0,
    {
        if a != b {
            DestinyJoinClosedReasons::lemma_single_bit(a);
            DestinyJoinClosedReasons::lemma_single_bit(b);
            DestinyJoinClosedReasons::lemma_values_distinct(a, b);
            lemma_single_bits_disjoint(a.spec_value(), b.spec_value());
        }
    }
}

impl core::str::FromStr for DestinyJoinClosedReasons {
    type Err = ParseEnumError;

    fn from_str(s: &str) -> (r: Result<DestinyJoinClosedReasons, ParseEnumError>)
        ensures
            r matches Ok(v) ==> v.spec_name() == s@,
            r matches Err(e) ==> e.input@ == s@ && e.target@ == "DestinyJoinClosedReasons"@ && (forall|v: DestinyJoinClosedReasons| v.spec_name() != s@),
            forall|v: DestinyJoinClosedReasons| #[trigger] v.spec_name() == s@ ==> r == Ok::<DestinyJoinClosedReasons, ParseEnumError>(v),
    {
        DestinyJoinClosedReasons::from_str(s)
    }
}

} // verus!
