//! Stats and talent grids.
use vstd::prelude::*;
use crate::error::ParseEnumError;
use crate::text::{decimal, format_decimal, str_eq};

verus! {

/// When a Stat (DestinyStatDefinition) is aggregated, this is the rules used for determining the level and formula used for aggregation.
/// * CharacterAverage = apply a weighted average using the related DestinyStatGroupDefinition on the DestinyInventoryItemDefinition across the character's equipped items. See both of those definitions for details. * Character = don't aggregate: the stat should be located and used directly on the character. * Item = don't aggregate: the stat should be located and used directly on the item.
///
/// The number that stands for a variant on the wire is `value()`; an `as`
/// cast gives the variant's position in the list instead.
#[derive(Clone, Copy, Debug, PartialEq, Eq, Hash, Structural)]
pub enum DestinyStatAggregationType {
    CharacterAverage,
    Character,
    Item,
}

impl DestinyStatAggregationType {
    /// The name of the variant, the text that `from_str` reads.
    pub open spec fn spec_name(self) -> Seq<char> {
        match self {
            DestinyStatAggregationType::CharacterAverage => "CharacterAverage"@,
            DestinyStatAggregationType::Character => "Character"@,
            DestinyStatAggregationType::Item => "Item"@,
        }
    }

    /// The number that stands for the variant on the wire.
    pub open spec fn spec_value(self) -> i32 {
        match self {
            DestinyStatAggregationType::CharacterAverage => 0,
            DestinyStatAggregationType::Character => 1,
            DestinyStatAggregationType::Item => 2,
        }
    }

    /// The number that stands for the variant on the wire.
    pub fn value(&self) -> (v: i32)
        ensures
            v == self.spec_value(),
    {
        match self {
            DestinyStatAggregationType::CharacterAverage => 0,
            DestinyStatAggregationType::Character => 1,
            DestinyStatAggregationType::Item => 2,
        }
    }

    /// The variant's number written in decimal.
    pub fn to_string(&self) -> (s: String)
        ensures
            s@ == decimal(self.spec_value() as nat),
    {
        let v = self.value();
        format_decimal(v as u32)
    }

    /// The variant named `s`; any other text is refused with an error that
    /// carries it.
    pub fn from_str(s: &str) -> (r: Result<DestinyStatAggregationType, ParseEnumError>)
        ensures
            r matches Ok(v) ==> v.spec_name() == s@,
            r matches Err(e) ==> e.input@ == s@ && e.target@ == "DestinyStatAggregationType"@ && (forall|v: DestinyStatAggregationType| v.spec_name() != s@),
            forall|v: DestinyStatAggregationType| #[trigger] v.spec_name() == s@ ==> r == Ok::<DestinyStatAggregationType, ParseEnumError>(v),
    {
        let r = if str_eq(s, "CharacterAverage") {
            Ok(DestinyStatAggregationType::CharacterAverage)
        } else if str_eq(s, "Character") {
            Ok(DestinyStatAggregationType::Character)
        } else if str_eq(s, "Item") {
            Ok(DestinyStatAggregationType::Item)
        } else {
            Err(ParseEnumError::new(s, "DestinyStatAggregationType"))
        };
        proof {
            assert forall|v: DestinyStatAggregationType| #[trigger] v.spec_name() == s@ implies r == Ok::<DestinyStatAggregationType, ParseEnumError>(v) by {
                if let Ok(w) = r {
                    DestinyStatAggregationType::lemma_names_distinct(v, w);
                }
            }
        }
        r
    }

    /// Distinct variants have distinct names.
    pub proof fn lemma_names_distinct(a: DestinyStatAggregationType, b: DestinyStatAggregationType)
        ensures
            a.spec_name() == b.spec_name() ==> a == b,
    {
        reveal_strlit("CharacterAverage");
        assert("CharacterAverage"@.len() == 16);
        reveal_strlit("Character");
        assert("Character"@.len() == 9);
        reveal_strlit("Item");
        assert("Item"@.len() == 4);
    }

    /// Distinct variants have distinct numbers.
    pub proof fn lemma_values_distinct(a: DestinyStatAggregationType, b: DestinyStatAggregationType)
        ensures
            a.spec_value() == b.spec_value() ==> a == b,
    {
    }
}

impl core::str::FromStr for DestinyStatAggregationType {
    type Err = ParseEnumError;

    fn from_str(s: &str) -> (r: Result<DestinyStatAggregationType, ParseEnumError>)
        ensures
            r matches Ok(v) ==> v.spec_name() == s@,
            r matches Err(e) ==> e.input@ == s@ && e.target@ == "DestinyStatAggregationType"@ && (forall|v: DestinyStatAggregationType| v.spec_name() != s@),
            forall|v: DestinyStatAggregationType| #[trigger] v.spec_name() == s@ ==> r == Ok::<DestinyStatAggregationType, ParseEnumError>(v),
    {
        DestinyStatAggregationType::from_str(s)
    }
}

/// At last, stats have categories. Use this for whatever purpose you might wish.
///
/// The number that stands for a variant on the wire is `value()`; an `as`
/// cast gives the variant's position in the list instead.
#[derive(Clone, Copy, Debug, PartialEq, Eq, Hash, Structural)]
pub enum DestinyStatCategory {
    Gameplay,
    Weapon,
    Defense,
    Primary,
}

impl DestinyStatCategory {
    /// The name of the variant, the text that `from_str` reads.
    pub open spec fn spec_name(self) -> Seq<char> {
        match self {
            DestinyStatCategory::Gameplay => "Gameplay"@,
            DestinyStatCategory::Weapon => "Weapon"@,
            DestinyStatCategory::Defense => "Defense"@,
            DestinyStatCategory::Primary => "Primary"@,
        }
    }

    /// The number that stands for the variant on the wire.
    pub open spec fn spec_value(self) -> i32 {
        match self {
            DestinyStatCategory::Gameplay => 0,
            DestinyStatCategory::Weapon => 1,
            DestinyStatCategory::Defense => 2,
            DestinyStatCategory::Primary => 3,
        }
    }

    /// The number that stands for the variant on the wire.
    pub fn value(&self) -> (v: i32)
        ensures
            v == self.spec_value(),
    {
        match self {
            DestinyStatCategory::Gameplay => 0,
            DestinyStatCategory::Weapon => 1,
            DestinyStatCategory::Defense => 2,
            DestinyStatCategory::Primary => 3,
        }
    }

    /// The variant's number written in decimal.
    pub fn to_string(&self) -> (s: String)
        ensures
            s@ == decimal(self.spec_value() as nat),
    {
        let v = self.value();
        format_decimal(v as u32)
    }

    /// The variant named `s`; any other text is refused with an error that
    /// carries it.
    pub fn from_str(s: &str) -> (r: Result<DestinyStatCategory, ParseEnumError>)
        ensures
            r matches Ok(v) ==> v.spec_name() == s@,
            r matches Err(e) ==> e.input@ == s@ && e.target@ == "DestinyStatCategory"@ && (forall|v: DestinyStatCategory| v.spec_name() != s@),
            forall|v: DestinyStatCategory| #[trigger] v.spec_name() == s@ ==> r == Ok::<DestinyStatCategory, ParseEnumError>(v),
    {
        let r = if str_eq(s, "Gameplay") {
            Ok(DestinyStatCategory::Gameplay)
        } else if str_eq(s, "Weapon") {
            Ok(DestinyStatCategory::Weapon)
        } else if str_eq(s, "Defense") {
            Ok(DestinyStatCategory::Defense)
        } else if str_eq(s, "Primary") {
            Ok(DestinyStatCategory::Primary)
        } else {
            Err(ParseEnumError::new(s, "DestinyStatCategory"))
        };
        proof {
            assert forall|v: DestinyStatCategory| #[trigger] v.spec_name() == s@ implies r == Ok::<DestinyStatCategory, ParseEnumError>(v) by {
                if let Ok(w) = r {
                    DestinyStatCategory::lemma_names_distinct(v, w);
                }
            }
        }
        r
    }

    /// Distinct variants have distinct names.
    pub proof fn lemma_names_distinct(a: DestinyStatCategory, b: DestinyStatCategory)
        ensures
            a.spec_name() == b.spec_name() ==> a == b,
    {
        reveal_strlit("Gameplay");
        assert("Gameplay"@.len() == 8);
        reveal_strlit("Weapon");
        assert("Weapon"@.len() == 6);
        reveal_strlit("Defense");
        assert("Defense"@.len() == 7);
        reveal_strlit("Primary");
        assert("Primary"@.len() == 7);
        assert("Defense"@[0] != "Primary"@[0]);
    }

    /// Distinct variants have distinct numbers.
    pub proof fn lemma_values_distinct(a: DestinyStatCategory, b: DestinyStatCategory)
        ensures
            a.spec_value() == b.spec_value() ==> a == b,
    {
    }
}

impl core::str::FromStr for DestinyStatCategory {
    type Err = ParseEnumError;

    fn from_str(s: &str) -> (r: Result<DestinyStatCategory, ParseEnumError>)
        ensures
            r matches Ok(v) ==> v.spec_name() == s@,
            r matches Err(e) ==> e.input@ == s@ && e.target@ == "DestinyStatCategory"@ && (forall|v: DestinyStatCategory| v.spec_name() != s@),
            forall|v: DestinyStatCategory| #[trigger] v.spec_name() == s@ ==> r == Ok::<DestinyStatCategory, ParseEnumError>(v),
    {
        DestinyStatCategory::from_str(s)
    }
}

/// Represents a stat on an item *or* Character (NOT a Historical Stat, but a physical attribute stat like Attack, Defense etc...)
#[derive(Clone, Debug, PartialEq)]
pub struct DestinyStat {
    /// The hash identifier for the Stat. Use it to look up the DestinyStatDefinition for static data about the stat.
    pub stat_hash: u32,

    /// The current value of the Stat.
    pub value: i32,
}

/// The number that stands for a variant on the wire is `value()`; an `as`
/// cast gives the variant's position in the list instead.
#[derive(Clone, Copy, Debug, PartialEq, Eq, Hash, Structural)]
pub enum DestinyTalentNodeState {
    Invalid,
    CanUpgrade,
    NoPoints,
    NoPrerequisites,
    NoSteps,
    NoUnlock,
    NoMaterial,
    NoGridLevel,
    SwappingLocked,
    MustSwap,
    Complete,
    Unknown,
    CreationOnly,
    Hidden,
}

impl DestinyTalentNodeState {
    /// The name of the variant, the text that `from_str` reads.
    pub open spec fn spec_name(self) -> Seq<char> {
        match self {
            DestinyTalentNodeState::Invalid => "Invalid"@,
            DestinyTalentNodeState::CanUpgrade => "CanUpgrade"@,
            DestinyTalentNodeState::NoPoints => "NoPoints"@,
            DestinyTalentNodeState::NoPrerequisites => "NoPrerequisites"@,
            DestinyTalentNodeState::NoSteps => "NoSteps"@,
            DestinyTalentNodeState::NoUnlock => "NoUnlock"@,
            DestinyTalentNodeState::NoMaterial => "NoMaterial"@,
            DestinyTalentNodeState::NoGridLevel => "NoGridLevel"@,
            DestinyTalentNodeState::SwappingLocked => "SwappingLocked"@,
            DestinyTalentNodeState::MustSwap => "MustSwap"@,
            DestinyTalentNodeState::Complete => "Complete"@,
            DestinyTalentNodeState::Unknown => "Unknown"@,
            DestinyTalentNodeState::CreationOnly => "CreationOnly"@,
            DestinyTalentNodeState::Hidden => "Hidden"@,
        }
    }

    /// The number that stands for the variant on the wire.
    pub open spec fn spec_value(self) -> i32 {
        match self {
            DestinyTalentNodeState::Invalid => 0,
            DestinyTalentNodeState::CanUpgrade => 1,
            DestinyTalentNodeState::NoPoints => 2,
            DestinyTalentNodeState::NoPrerequisites => 3,
            DestinyTalentNodeState::NoSteps => 4,
            DestinyTalentNodeState::NoUnlock => 5,
            DestinyTalentNodeState::NoMaterial => 6,
            DestinyTalentNodeState::NoGridLevel => 7,
            DestinyTalentNodeState::SwappingLocked => 8,
            DestinyTalentNodeState::MustSwap => 9,
            DestinyTalentNodeState::Complete => 10,
            DestinyTalentNodeState::Unknown => 11,
            DestinyTalentNodeState::CreationOnly => 12,
            DestinyTalentNodeState::Hidden => 13,
        }
    }

    /// The number that stands for the variant on the wire.
    pub fn value(&self) -> (v: i32)
        ensures
            v == self.spec_value(),
    {
        match self {
            DestinyTalentNodeState::Invalid => 0,
            DestinyTalentNodeState::CanUpgrade => 1,
            DestinyTalentNodeState::NoPoints => 2,
            DestinyTalentNodeState::NoPrerequisites => 3,
            DestinyTalentNodeState::NoSteps => 4,
            DestinyTalentNodeState::NoUnlock => 5,
            DestinyTalentNodeState::NoMaterial => 6,
            DestinyTalentNodeState::NoGridLevel => 7,
            DestinyTalentNodeState::SwappingLocked => 8,
            DestinyTalentNodeState::MustSwap => 9,
            DestinyTalentNodeState::Complete => 10,
            DestinyTalentNodeState::Unknown => 11,
            DestinyTalentNodeState::CreationOnly => 12,
            DestinyTalentNodeState::Hidden => 13,
        }
    }

    /// The variant's number written in decimal.
    pub fn to_string(&self) -> (s: String)
        ensures
            s@ == decimal(self.spec_value() as nat),
    {
        let v = self.value();
        format_decimal(v as u32)
    }

    /// The variant named `s`; any other text is refused with an error that
    /// carries it.
    pub fn from_str(s: &str) -> (r: Result<DestinyTalentNodeState, ParseEnumError>)
        ensures
            r matches Ok(v) ==> v.spec_name() == s@,
            r matches Err(e) ==> e.input@ == s@ && e.target@ == "DestinyTalentNodeState"@ && (forall|v: DestinyTalentNodeState| v.spec_name() != s@),
            forall|v: DestinyTalentNodeState| #[trigger] v.spec_name() == s@ ==> r == Ok::<DestinyTalentNodeState, ParseEnumError>(v),
    {
        let r = if str_eq(s, "Invalid") {
            Ok(DestinyTalentNodeState::Invalid)
        } else if str_eq(s, "CanUpgrade") {
            Ok(DestinyTalentNodeState::CanUpgrade)
        } else if str_eq(s, "NoPoints") {
            Ok(DestinyTalentNodeState::NoPoints)
        } else if str_eq(s, "NoPrerequisites") {
            Ok(DestinyTalentNodeState::NoPrerequisites)
        } else if str_eq(s, "NoSteps") {
            Ok(DestinyTalentNodeState::NoSteps)
        } else if str_eq(s, "NoUnlock") {
            Ok(DestinyTalentNodeState::NoUnlock)
        } else if str_eq(s, "NoMaterial") {
            Ok(DestinyTalentNodeState::NoMaterial)
        } else if str_eq(s, "NoGridLevel") {
            Ok(DestinyTalentNodeState::NoGridLevel)
        } else if str_eq(s, "SwappingLocked") {
            Ok(DestinyTalentNodeState::SwappingLocked)
        } else if str_eq(s, "MustSwap") {
            Ok(DestinyTalentNodeState::MustSwap)
        } else if str_eq(s, "Complete") {
            Ok(DestinyTalentNodeState::Complete)
        } else if str_eq(s, "Unknown") {
            Ok(DestinyTalentNodeState::Unknown)
        } else if str_eq(s, "CreationOnly") {
            Ok(DestinyTalentNodeState::CreationOnly)
        } else if str_eq(s, "Hidden") {
            Ok(DestinyTalentNodeState::Hidden)
        } else {
            Err(ParseEnumError::new(s, "DestinyTalentNodeState"))
        };
        proof {
            assert forall|v: DestinyTalentNodeState| #[trigger] v.spec_name() == s@ implies r == Ok::<DestinyTalentNodeState, ParseEnumError>(v) by {
                if let Ok(w) = r {
                    DestinyTalentNodeState::lemma_names_distinct(v, w);
                }
            }
        }
        r
    }

    /// Distinct variants have distinct names.
    pub proof fn lemma_names_distinct(a: DestinyTalentNodeState, b: DestinyTalentNodeState)
        ensures
            a.spec_name() == b.spec_name() ==> a == b,
    {
        reveal_strlit("Invalid");
        assert("Invalid"@.len() == 7);
        reveal_strlit("CanUpgrade");
        assert("CanUpgrade"@.len() == 10);
        reveal_strlit("NoPoints");
        assert("NoPoints"@.len() == 8);
        reveal_strlit("NoPrerequisites");
        assert("NoPrerequisites"@.len() == 15);
        reveal_strlit("NoSteps");
        assert("NoSteps"@.len() == 7);
        reveal_strlit("NoUnlock");
        assert("NoUnlock"@.len() == 8);
        reveal_strlit("NoMaterial");
        assert("NoMaterial"@.len() == 10);
        reveal_strlit("NoGridLevel");
        assert("NoGridLevel"@.len() == 11);
        reveal_strlit("SwappingLocked");
        assert("SwappingLocked"@.len() == 14);
        reveal_strlit("MustSwap");
        assert("MustSwap"@.len() == 8);
        reveal_strlit("Complete");
        assert("Complete"@.len() == 8);
        reveal_strlit("Unknown");
        assert("Unknown"@.len() == 7);
        reveal_strlit("CreationOnly");
        assert("CreationOnly"@.len() == 12);
        reveal_strlit("Hidden");
        assert("Hidden"@.len() == 6);
        assert("Invalid"@[0] != "NoSteps"@[0]);
        assert("Invalid"@[0] != "Unknown"@[0]);
        assert("CanUpgrade"@[0] != "NoMaterial"@[0]);
        assert("NoPoints"@[2] != "NoUnlock"@[2]);
        assert("NoPoints"@[0] != "MustSwap"@[0]);
        assert("NoPoints"@[0] != "Complete"@[0]);
        assert("NoSteps"@[0] != "Unknown"@[0]);
        assert("NoUnlock"@[0] != "MustSwap"@[0]);
        assert("NoUnlock"@[0] != "Complete"@[0]);
        assert("MustSwap"@[0] != "Complete"@[0]);
    }

    /// Distinct variants have distinct numbers.
    pub proof fn lemma_values_distinct(a: DestinyTalentNodeState, b: DestinyTalentNodeState)
        ensures
            a.spec_value() == b.spec_value() ==> a == b,
    {
    }
}

impl core::str::FromStr for DestinyTalentNodeState {
    type Err = ParseEnumError;

    fn from_str(s: &str) -> (r: Result<DestinyTalentNodeState, ParseEnumError>)
        ensures
            r matches Ok(v) ==> v.spec_name() == s@,
            r matches Err(e) ==> e.input@ == s@ && e.target@ == "DestinyTalentNodeState"@ && (forall|v: DestinyTalentNodeState| v.spec_name() != s@),
            forall|v: DestinyTalentNodeState| #[trigger] v.spec_name() == s@ ==> r == Ok::<DestinyTalentNodeState, ParseEnumError>(v),
    {
        DestinyTalentNodeState::from_str(s)
    }
}

/// This property has some history. A talent grid can provide stats on both the item it's related to and the character equipping the item. This returns data about those stat bonuses.
#[derive(Clone, Debug, PartialEq)]
pub struct DestinyTalentNodeStatBlock {
    /// The stat benefits conferred when this talent node is activated for the current Step that is active on the node.
    pub current_step_stats: Option<Vec<DestinyStat>>,

    /// This is a holdover from the old days of Destiny 1, when a node could be activated multiple times, conferring multiple steps worth of benefits: you would use this property to show what activating the "next" step on the node would provide vs. what the current step is providing. While Nodes are currently not being used this way, the underlying system for this functionality still exists. I hesitate to remove this property while the ability for designers to make such a talent grid still exists. Whether you want to show it is up to you.
    pub next_step_stats: Option<Vec<DestinyStat>>,
}

} // verus!
