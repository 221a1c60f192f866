//! Objectives, records, collectibles and presentation nodes.
use vstd::prelude::*;
use crate::error::ParseEnumError;
use crate::text::{decimal, format_decimal, str_eq};
use crate::flags::{is_single_bit, lemma_single_bits_disjoint};

verus! {

/// If you're showing an unlock value in the UI, this is the format in which it should be shown. You'll have to build your own algorithms on the client side to determine how best to render these options.
///
/// The number that stands for a variant on the wire is `value()`; an `as`
/// cast gives the variant's position in the list instead.
#[derive(Clone, Copy, Debug, PartialEq, Eq, Hash, Structural)]
pub enum DestinyUnlockValueUIStyle {
    /// Generally, Automatic means "Just show the number"
    Automatic,
    /// Show the number as a fractional value. For this to make sense, the value being displayed should have a comparable upper bound, like the progress to the next level of a Progression.
    Fraction,
    /// Show the number as a checkbox. 0 Will mean unchecked, any other value will mean checked.
    Checkbox,
    /// Show the number as a percentage. For this to make sense, the value being displayed should have a comparable upper bound, like the progress to the next level of a Progression.
    Percentage,
    /// Show the number as a date and time. The number will be the number of seconds since the Unix Epoch (January 1st, 1970 at midnight UTC). It'll be up to you to convert this into a date and time format understandable to the user in their time zone.
    DateTime,
    /// Show the number as a floating point value that represents a fraction, where 0 is min and 1 is max. For this to make sense, the value being displayed should have a comparable upper bound, like the progress to the next level of a Progression.
    FractionFloat,
    /// Show the number as a straight-up integer.
    Integer,
    /// Show the number as a time duration. The value will be returned as seconds.
    TimeDuration,
    /// Don't bother showing the value at all, it's not easily human-interpretable, and used for some internal purpose.
    Hidden,
    /// Example: "1.5x"
    Multiplier,
    /// Show the value as a series of green pips, like the wins in a Trials of Osiris score card.
    GreenPips,
    /// Show the value as a series of red pips, like the losses in a Trials of Osiris score card.
    RedPips,
    /// Show the value as a percentage. For example: "51%" - Does no division, only appends '%'
    ExplicitPercentage,
    /// Show the value as a floating-point number. For example: "4.52" NOTE: Passed along from Investment as whole number with last two digits as decimal values (452 -> 4.52)
    RawFloat,
    /// Show the value as a level and a reward.
    LevelAndReward,
}

impl DestinyUnlockValueUIStyle {
    /// The name of the variant, the text that `from_str` reads.
    pub open spec fn spec_name(self) -> Seq<char> {
        match self {
            DestinyUnlockValueUIStyle::Automatic => "Automatic"@,
            DestinyUnlockValueUIStyle::Fraction => "Fraction"@,
            DestinyUnlockValueUIStyle::Checkbox => "Checkbox"@,
            DestinyUnlockValueUIStyle::Percentage => "Percentage"@,
            DestinyUnlockValueUIStyle::DateTime => "DateTime"@,
            DestinyUnlockValueUIStyle::FractionFloat => "FractionFloat"@,
            DestinyUnlockValueUIStyle::Integer => "Integer"@,
            DestinyUnlockValueUIStyle::TimeDuration => "TimeDuration"@,
            DestinyUnlockValueUIStyle::Hidden => "Hidden"@,
            DestinyUnlockValueUIStyle::Multiplier => "Multiplier"@,
            DestinyUnlockValueUIStyle::GreenPips => "GreenPips"@,
            DestinyUnlockValueUIStyle::RedPips => "RedPips"@,
            DestinyUnlockValueUIStyle::ExplicitPercentage => "ExplicitPercentage"@,
            DestinyUnlockValueUIStyle::RawFloat => "RawFloat"@,
            DestinyUnlockValueUIStyle::LevelAndReward => "LevelAndReward"@,
        }
    }

    /// The number that stands for the variant on the wire.
    pub open spec fn spec_value(self) -> i32 {
        match self {
            DestinyUnlockValueUIStyle::Automatic => 0,
            DestinyUnlockValueUIStyle::Fraction => 1,
            DestinyUnlockValueUIStyle::Checkbox => 2,
            DestinyUnlockValueUIStyle::Percentage => 3,
            DestinyUnlockValueUIStyle::DateTime => 4,
            DestinyUnlockValueUIStyle::FractionFloat => 5,
            DestinyUnlockValueUIStyle::Integer => 6,
            DestinyUnlockValueUIStyle::TimeDuration => 7,
            DestinyUnlockValueUIStyle::Hidden => 8,
            DestinyUnlockValueUIStyle::Multiplier => 9,
            DestinyUnlockValueUIStyle::GreenPips => 10,
            DestinyUnlockValueUIStyle::RedPips => 11,
            DestinyUnlockValueUIStyle::ExplicitPercentage => 12,
            DestinyUnlockValueUIStyle::RawFloat => 13,
            DestinyUnlockValueUIStyle::LevelAndReward => 14,
        }
    }

    /// The number that stands for the variant on the wire.
    pub fn value(&self) -> (v: i32)
        ensures
            v == self.spec_value(),
    {
        match self {
            DestinyUnlockValueUIStyle::Automatic => 0,
            DestinyUnlockValueUIStyle::Fraction => 1,
            DestinyUnlockValueUIStyle::Checkbox => 2,
            DestinyUnlockValueUIStyle::Percentage => 3,
            DestinyUnlockValueUIStyle::DateTime => 4,
            DestinyUnlockValueUIStyle::FractionFloat => 5,
            DestinyUnlockValueUIStyle::Integer => 6,
            DestinyUnlockValueUIStyle::TimeDuration => 7,
            DestinyUnlockValueUIStyle::Hidden => 8,
            DestinyUnlockValueUIStyle::Multiplier => 9,
            DestinyUnlockValueUIStyle::GreenPips => 10,
            DestinyUnlockValueUIStyle::RedPips => 11,
            DestinyUnlockValueUIStyle::ExplicitPercentage => 12,
            DestinyUnlockValueUIStyle::RawFloat => 13,
            DestinyUnlockValueUIStyle::LevelAndReward => 14,
        }
    }

    /// The variant's number written in decimal.
    pub fn to_string(&self) -> (s: String)
        ensures
            s@ == decimal(self.spec_value() as nat),
    {
        let v = self.value();
        format_decimal(v as u32)
    }

    /// The variant named `s`; any other text is refused with an error that
    /// carries it.
    pub fn from_str(s: &str) -> (r: Result<DestinyUnlockValueUIStyle, ParseEnumError>)
        ensures
            r matches Ok(v) ==> v.spec_name() == s@,
            r matches Err(e) ==> e.input@ == s@ && e.target@ == "DestinyUnlockValueUIStyle"@ && (forall|v: DestinyUnlockValueUIStyle| v.spec_name() != s@),
            forall|v: DestinyUnlockValueUIStyle| #[trigger] v.spec_name() == s@ ==> r == Ok::<DestinyUnlockValueUIStyle, ParseEnumError>(v),
    {
        let r = if str_eq(s, "Automatic") {
            Ok(DestinyUnlockValueUIStyle::Automatic)
        } else if str_eq(s, "Fraction") {
            Ok(DestinyUnlockValueUIStyle::Fraction)
        } else if str_eq(s, "Checkbox") {
            Ok(DestinyUnlockValueUIStyle::Checkbox)
        } else if str_eq(s, "Percentage") {
            Ok(DestinyUnlockValueUIStyle::Percentage)
        } else if str_eq(s, "DateTime") {
            Ok(DestinyUnlockValueUIStyle::DateTime)
        } else if str_eq(s, "FractionFloat") {
            Ok(DestinyUnlockValueUIStyle::FractionFloat)
        } else if str_eq(s, "Integer") {
            Ok(DestinyUnlockValueUIStyle::Integer)
        } else if str_eq(s, "TimeDuration") {
            Ok(DestinyUnlockValueUIStyle::TimeDuration)
        } else if str_eq(s, "Hidden") {
            Ok(DestinyUnlockValueUIStyle::Hidden)
        } else if str_eq(s, "Multiplier") {
            Ok(DestinyUnlockValueUIStyle::Multiplier)
        } else if str_eq(s, "GreenPips") {
            Ok(DestinyUnlockValueUIStyle::GreenPips)
        } else if str_eq(s, "RedPips") {
            Ok(DestinyUnlockValueUIStyle::RedPips)
        } else if str_eq(s, "ExplicitPercentage") {
            Ok(DestinyUnlockValueUIStyle::ExplicitPercentage)
        } else if str_eq(s, "RawFloat") {
            Ok(DestinyUnlockValueUIStyle::RawFloat)
        } else if str_eq(s, "LevelAndReward") {
            Ok(DestinyUnlockValueUIStyle::LevelAndReward)
        } else {
            Err(ParseEnumError::new(s, "DestinyUnlockValueUIStyle"))
        };
        proof {
            assert forall|v: DestinyUnlockValueUIStyle| #[trigger] v.spec_name() == s@ implies r == Ok::<DestinyUnlockValueUIStyle, ParseEnumError>(v) by {
                if let Ok(w) = r {
                    DestinyUnlockValueUIStyle::lemma_names_distinct(v, w);
                }
            }
        }
        r
    }

    /// Distinct variants have distinct names.
    pub proof fn lemma_names_distinct(a: DestinyUnlockValueUIStyle, b: DestinyUnlockValueUIStyle)
        ensures
            a.spec_name() == b.spec_name() ==> a == b,
    {
        reveal_strlit("Automatic");
        assert("Automatic"@.len() == 9);
        reveal_strlit("Fraction");
        assert("Fraction"@.len() == 8);
        reveal_strlit("Checkbox");
        assert("Checkbox"@.len() == 8);
        reveal_strlit("Percentage");
        assert("Percentage"@.len() == 10);
        reveal_strlit("DateTime");
        assert("DateTime"@.len() == 8);
        reveal_strlit("FractionFloat");
        assert("FractionFloat"@.len() == 13);
        reveal_strlit("Integer");
        assert("Integer"@.len() == 7);
        reveal_strlit("TimeDuration");
        assert("TimeDuration"@.len() == 12);
        reveal_strlit("Hidden");
        assert("Hidden"@.len() == 6);
        reveal_strlit("Multiplier");
        assert("Multiplier"@.len() == 10);
        reveal_strlit("GreenPips");
        assert("GreenPips"@.len() == 9);
        reveal_strlit("RedPips");
        assert("RedPips"@.len() == 7);
        reveal_strlit("ExplicitPercentage");
        assert("ExplicitPercentage"@.len() == 18);
        reveal_strlit("RawFloat");
        assert("RawFloat"@.len() == 8);
        reveal_strlit("LevelAndReward");
        assert("LevelAndReward"@.len() == 14);
        assert("Automatic"@[0] != "GreenPips"@[0]);
        assert("Fraction"@[0] != "Checkbox"@[0]);
        assert("Fraction"@[0] != "DateTime"@[0]);
        assert("Fraction"@[0] != "RawFloat"@[0]);
        assert("Checkbox"@[0] != "DateTime"@[0]);
        assert("Checkbox"@[0] != "RawFloat"@[0]);
        assert("Percentage"@[0] != "Multiplier"@[0]);
        assert("DateTime"@[0] != "RawFloat"@[0]);
        assert("Integer"@[0] != "RedPips"@[0]);
    }

    /// Distinct variants have distinct numbers.
    pub proof fn lemma_values_distinct(a: DestinyUnlockValueUIStyle, b: DestinyUnlockValueUIStyle)
        ensures
            a.spec_value() == b.spec_value() ==> a == b,
    {
    }
}

impl core::str::FromStr for DestinyUnlockValueUIStyle {
    type Err = ParseEnumError;

    fn from_str(s: &str) -> (r: Result<DestinyUnlockValueUIStyle, ParseEnumError>)
        ensures
            r matches Ok(v) ==> v.spec_name() == s@,
            r matches Err(e) ==> e.input@ == s@ && e.target@ == "DestinyUnlockValueUIStyle"@ && (forall|v: DestinyUnlockValueUIStyle| v.spec_name() != s@),
            forall|v: DestinyUnlockValueUIStyle| #[trigger] v.spec_name() == s@ ==> r == Ok::<DestinyUnlockValueUIStyle, ParseEnumError>(v),
    {
        DestinyUnlockValueUIStyle::from_str(s)
    }
}

/// Some Objectives provide perks, generally as part of providing some kind of interesting modifier for a Challenge or Quest. This indicates when the Perk is granted.
///
/// The number that stands for a variant on the wire is `value()`; an `as`
/// cast gives the variant's position in the list instead.
#[derive(Clone, Copy, Debug, PartialEq, Eq, Hash, Structural)]
pub enum DestinyObjectiveGrantStyle {
    WhenIncomplete,
    WhenComplete,
    Always,
}

impl DestinyObjectiveGrantStyle {
    /// The name of the variant, the text that `from_str` reads.
    pub open spec fn spec_name(self) -> Seq<char> {
        match self {
            DestinyObjectiveGrantStyle::WhenIncomplete => "WhenIncomplete"@,
            DestinyObjectiveGrantStyle::WhenComplete => "WhenComplete"@,
            DestinyObjectiveGrantStyle::Always => "Always"@,
        }
    }

    /// The number that stands for the variant on the wire.
    pub open spec fn spec_value(self) -> i32 {
        match self {
            DestinyObjectiveGrantStyle::WhenIncomplete => 0,
            DestinyObjectiveGrantStyle::WhenComplete => 1,
            DestinyObjectiveGrantStyle::Always => 2,
        }
    }

    /// The number that stands for the variant on the wire.
    pub fn value(&self) -> (v: i32)
        ensures
            v == self.spec_value(),
    {
        match self {
            DestinyObjectiveGrantStyle::WhenIncomplete => 0,
            DestinyObjectiveGrantStyle::WhenComplete => 1,
            DestinyObjectiveGrantStyle::Always => 2,
        }
    }

    /// The variant's number written in decimal.
    pub fn to_string(&self) -> (s: String)
        ensures
            s@ == decimal(self.spec_value() as nat),
    {
        let v = self.value();
        format_decimal(v as u32)
    }

    /// The variant named `s`; any other text is refused with an error that
    /// carries it.
    pub fn from_str(s: &str) -> (r: Result<DestinyObjectiveGrantStyle, ParseEnumError>)
        ensures
            r matches Ok(v) ==> v.spec_name() == s@,
            r matches Err(e) ==> e.input@ == s@ && e.target@ == "DestinyObjectiveGrantStyle"@ && (forall|v: DestinyObjectiveGrantStyle| v.spec_name() != s@),
            forall|v: DestinyObjectiveGrantStyle| #[trigger] v.spec_name() == s@ ==> r == Ok::<DestinyObjectiveGrantStyle, ParseEnumError>(v),
    {
        let r = if str_eq(s, "WhenIncomplete") {
            Ok(DestinyObjectiveGrantStyle::WhenIncomplete)
        } else if str_eq(s, "WhenComplete") {
            Ok(DestinyObjectiveGrantStyle::WhenComplete)
        } else if str_eq(s, "Always") {
            Ok(DestinyObjectiveGrantStyle::Always)
        } else {
            Err(ParseEnumError::new(s, "DestinyObjectiveGrantStyle"))
        };
        proof {
            assert forall|v: DestinyObjectiveGrantStyle| #[trigger] v.spec_name() == s@ implies r == Ok::<DestinyObjectiveGrantStyle, ParseEnumError>(v) by {
                if let Ok(w) = r {
                    DestinyObjectiveGrantStyle::lemma_names_distinct(v, w);
                }
            }
        }
        r
    }

    /// Distinct variants have distinct names.
    pub proof fn lemma_names_distinct(a: DestinyObjectiveGrantStyle, b: DestinyObjectiveGrantStyle)
        ensures
            a.spec_name() == b.spec_name() ==> a == b,
    {
        reveal_strlit("WhenIncomplete");
        assert("WhenIncomplete"@.len() == 14);
        reveal_strlit("WhenComplete");
        assert("WhenComplete"@.len() == 12);
        reveal_strlit("Always");
        assert("Always"@.len() == 6);
    }

    /// Distinct variants have distinct numbers.
    pub proof fn lemma_values_distinct(a: DestinyObjectiveGrantStyle, b: DestinyObjectiveGrantStyle)
        ensures
            a.spec_value() == b.spec_value() ==> a == b,
    {
    }
}

impl core::str::FromStr for DestinyObjectiveGrantStyle {
    type Err = ParseEnumError;

    fn from_str(s: &str) -> (r: Result<DestinyObjectiveGrantStyle, ParseEnumError>)
        ensures
            r matches Ok(v) ==> v.spec_name() == s@,
            r matches Err(e) ==> e.input@ == s@ && e.target@ == "DestinyObjectiveGrantStyle"@ && (forall|v: DestinyObjectiveGrantStyle| v.spec_name() != s@),
            forall|v: DestinyObjectiveGrantStyle| #[trigger] v.spec_name() == s@ ==> r == Ok::<DestinyObjectiveGrantStyle, ParseEnumError>(v),
    {
        DestinyObjectiveGrantStyle::from_str(s)
    }
}

/// If the objective has a known UI label, this enumeration will represent it.
///
/// The number that stands for a variant on the wire is `value()`; an `as`
/// cast gives the variant's position in the list instead.
#[derive(Clone, Copy, Debug, PartialEq, Eq, Hash, Structural)]
pub enum DestinyObjectiveUiStyle {
    /// The API calls this variant `None`; `from_str` reads that name.
    None_,
    Highlighted,
    CraftingWeaponLevel,
    CraftingWeaponLevelProgress,
    CraftingWeaponTimestamp,
    CraftingMementos,
    CraftingMementoTitle,
}

impl DestinyObjectiveUiStyle {
    /// The name of the variant, the text that `from_str` reads.
    pub open spec fn spec_name(self) -> Seq<char> {
        match self {
            DestinyObjectiveUiStyle::None_ => "None"@,
            DestinyObjectiveUiStyle::Highlighted => "Highlighted"@,
            DestinyObjectiveUiStyle::CraftingWeaponLevel => "CraftingWeaponLevel"@,
            DestinyObjectiveUiStyle::CraftingWeaponLevelProgress => "CraftingWeaponLevelProgress"@,
            DestinyObjectiveUiStyle::CraftingWeaponTimestamp => "CraftingWeaponTimestamp"@,
            DestinyObjectiveUiStyle::CraftingMementos => "CraftingMementos"@,
            DestinyObjectiveUiStyle::CraftingMementoTitle => "CraftingMementoTitle"@,
        }
    }

    /// The number that stands for the variant on the wire.
    pub open spec fn spec_value(self) -> i32 {
        match self {
            DestinyObjectiveUiStyle::None_ => 0,
            DestinyObjectiveUiStyle::Highlighted => 1,
            DestinyObjectiveUiStyle::CraftingWeaponLevel => 2,
            DestinyObjectiveUiStyle::CraftingWeaponLevelProgress => 3,
            DestinyObjectiveUiStyle::CraftingWeaponTimestamp => 4,
            DestinyObjectiveUiStyle::CraftingMementos => 5,
            DestinyObjectiveUiStyle::CraftingMementoTitle => 6,
        }
    }

    /// The number that stands for the variant on the wire.
    pub fn value(&self) -> (v: i32)
        ensures
            v == self.spec_value(),
    {
        match self {
            DestinyObjectiveUiStyle::None_ => 0,
            DestinyObjectiveUiStyle::Highlighted => 1,
            DestinyObjectiveUiStyle::CraftingWeaponLevel => 2,
            DestinyObjectiveUiStyle::CraftingWeaponLevelProgress => 3,
            DestinyObjectiveUiStyle::CraftingWeaponTimestamp => 4,
            DestinyObjectiveUiStyle::CraftingMementos => 5,
            DestinyObjectiveUiStyle::CraftingMementoTitle => 6,
        }
    }

    /// The variant's number written in decimal.
    pub fn to_string(&self) -> (s: String)
        ensures
            s@ == decimal(self.spec_value() as nat),
    {
        let v = self.value();
        format_decimal(v as u32)
    }

    /// The variant named `s`; any other text is refused with an error that
    /// carries it.
    pub fn from_str(s: &str) -> (r: Result<DestinyObjectiveUiStyle, ParseEnumError>)
        ensures
            r matches Ok(v) ==> v.spec_name() == s@,
            r matches Err(e) ==> e.input@ == s@ && e.target@ == "DestinyObjectiveUiStyle"@ && (forall|v: DestinyObjectiveUiStyle| v.spec_name() != s@),
            forall|v: DestinyObjectiveUiStyle| #[trigger] v.spec_name() == s@ ==> r == Ok::<DestinyObjectiveUiStyle, ParseEnumError>(v),
    {
        let r = if str_eq(s, "None") {
            Ok(DestinyObjectiveUiStyle::None_)
        } else if str_eq(s, "Highlighted") {
            Ok(DestinyObjectiveUiStyle::Highlighted)
        } else if str_eq(s, "CraftingWeaponLevel") {
            Ok(DestinyObjectiveUiStyle::CraftingWeaponLevel)
        } else if str_eq(s, "CraftingWeaponLevelProgress") {
            Ok(DestinyObjectiveUiStyle::CraftingWeaponLevelProgress)
        } else if str_eq(s, "CraftingWeaponTimestamp") {
            Ok(DestinyObjectiveUiStyle::CraftingWeaponTimestamp)
        } else if str_eq(s, "CraftingMementos") {
            Ok(DestinyObjectiveUiStyle::CraftingMementos)
        } else if str_eq(s, "CraftingMementoTitle") {
            Ok(DestinyObjectiveUiStyle::CraftingMementoTitle)
        } else {
            Err(ParseEnumError::new(s, "DestinyObjectiveUiStyle"))
        };
        proof {
            assert forall|v: DestinyObjectiveUiStyle| #[trigger] v.spec_name() == s@ implies r == Ok::<DestinyObjectiveUiStyle, ParseEnumError>(v) by {
                if let Ok(w) = r {
                    DestinyObjectiveUiStyle::lemma_names_distinct(v, w);
                }
            }
        }
        r
    }

    /// Distinct variants have distinct names.
    pub proof fn lemma_names_distinct(a: DestinyObjectiveUiStyle, b: DestinyObjectiveUiStyle)
        ensures
            a.spec_name() == b.spec_name() ==> a == b,
    {
        reveal_strlit("None");
        assert("None"@.len() == 4);
        reveal_strlit("Highlighted");
        assert("Highlighted"@.len() == 11);
        reveal_strlit("CraftingWeaponLevel");
        assert("CraftingWeaponLevel"@.len() == 19);
        reveal_strlit("CraftingWeaponLevelProgress");
        assert("CraftingWeaponLevelProgress"@.len() == 27);
        reveal_strlit("CraftingWeaponTimestamp");
        assert("CraftingWeaponTimestamp"@.len() == 23);
        reveal_strlit("CraftingMementos");
        assert("CraftingMementos"@.len() == 16);
        reveal_strlit("CraftingMementoTitle");
        assert("CraftingMementoTitle"@.len() == 20);
    }

    /// Distinct variants have distinct numbers.
    pub proof fn lemma_values_distinct(a: DestinyObjectiveUiStyle, b: DestinyObjectiveUiStyle)
        ensures
            a.spec_value() == b.spec_value() ==> a == b,
    {
    }
}

impl core::str::FromStr for DestinyObjectiveUiStyle {
    type Err = ParseEnumError;

    fn from_str(s: &str) -> (r: Result<DestinyObjectiveUiStyle, ParseEnumError>)
        ensures
            r matches Ok(v) ==> v.spec_name() == s@,
            r matches Err(e) ==> e.input@ == s@ && e.target@ == "DestinyObjectiveUiStyle"@ && (forall|v: DestinyObjectiveUiStyle| v.spec_name() != s@),
            forall|v: DestinyObjectiveUiStyle| #[trigger] v.spec_name() == s@ ==> r == Ok::<DestinyObjectiveUiStyle, ParseEnumError>(v),
    {
        DestinyObjectiveUiStyle::from_str(s)
    }
}

/// Represents a potential state of an Activity Graph node.
///
/// The number that stands for a variant on the wire is `value()`; an `as`
/// cast gives the variant's position in the list instead.
#[derive(Clone, Copy, Debug, PartialEq, Eq, Hash, Structural)]
pub enum DestinyGraphNodeState {
    Hidden,
    Visible,
    Teaser,
    Incomplete,
    Completed,
}

impl DestinyGraphNodeState {
    /// The name of the variant, the text that `from_str` reads.
    pub open spec fn spec_name(self) -> Seq<char> {
        match self {
            DestinyGraphNodeState::Hidden => "Hidden"@,
            DestinyGraphNodeState::Visible => "Visible"@,
            DestinyGraphNodeState::Teaser => "Teaser"@,
            DestinyGraphNodeState::Incomplete => "Incomplete"@,
            DestinyGraphNodeState::Completed => "Completed"@,
        }
    }

    /// The number that stands for the variant on the wire.
    pub open spec fn spec_value(self) -> i32 {
        match self {
            DestinyGraphNodeState::Hidden => 0,
            DestinyGraphNodeState::Visible => 1,
            DestinyGraphNodeState::Teaser => 2,
            DestinyGraphNodeState::Incomplete => 3,
            DestinyGraphNodeState::Completed => 4,
        }
    }

    /// The number that stands for the variant on the wire.
    pub fn value(&self) -> (v: i32)
        ensures
            v == self.spec_value(),
    {
        match self {
            DestinyGraphNodeState::Hidden => 0,
            DestinyGraphNodeState::Visible => 1,
            DestinyGraphNodeState::Teaser => 2,
            DestinyGraphNodeState::Incomplete => 3,
            DestinyGraphNodeState::Completed => 4,
        }
    }

    /// The variant's number written in decimal.
    pub fn to_string(&self) -> (s: String)
        ensures
            s@ == decimal(self.spec_value() as nat),
    {
        let v = self.value();
        format_decimal(v as u32)
    }

    /// The variant named `s`; any other text is refused with an error that
    /// carries it.
    pub fn from_str(s: &str) -> (r: Result<DestinyGraphNodeState, ParseEnumError>)
        ensures
            r matches Ok(v) ==> v.spec_name() == s@,
            r matches Err(e) ==> e.input@ == s@ && e.target@ == "DestinyGraphNodeState"@ && (forall|v: DestinyGraphNodeState| v.spec_name() != s@),
            forall|v: DestinyGraphNodeState| #[trigger] v.spec_name() == s@ ==> r == Ok::<DestinyGraphNodeState, ParseEnumError>(v),
    {
        let r = if str_eq(s, "Hidden") {
            Ok(DestinyGraphNodeState::Hidden)
        } else if str_eq(s, "Visible") {
            Ok(DestinyGraphNodeState::Visible)
        } else if str_eq(s, "Teaser") {
            Ok(DestinyGraphNodeState::Teaser)
        } else if str_eq(s, "Incomplete") {
            Ok(DestinyGraphNodeState::Incomplete)
        } else if str_eq(s, "Completed") {
            Ok(DestinyGraphNodeState::Completed)
        } else {
            Err(ParseEnumError::new(s, "DestinyGraphNodeState"))
        };
        proof {
            assert forall|v: DestinyGraphNodeState| #[trigger] v.spec_name() == s@ implies r == Ok::<DestinyGraphNodeState, ParseEnumError>(v) by {
                if let Ok(w) = r {
                    DestinyGraphNodeState::lemma_names_distinct(v, w);
                }
            }
        }
        r
    }

    /// Distinct variants have distinct names.
    pub proof fn lemma_names_distinct(a: DestinyGraphNodeState, b: DestinyGraphNodeState)
        ensures
            a.spec_name() == b.spec_name() ==> a == b,
    {
        reveal_strlit("Hidden");
        assert("Hidden"@.len() == 6);
        reveal_strlit("Visible");
        assert("Visible"@.len() == 7);
        reveal_strlit("Teaser");
        assert("Teaser"@.len() == 6);
        reveal_strlit("Incomplete");
        assert("Incomplete"@.len() == 10);
        reveal_strlit("Completed");
        assert("Completed"@.len() == 9);
        assert("Hidden"@[0] != "Teaser"@[0]);
    }

    /// Distinct variants have distinct numbers.
    pub proof fn lemma_values_distinct(a: DestinyGraphNodeState, b: DestinyGraphNodeState)
        ensures
            a.spec_value() == b.spec_value() ==> a == b,
    {
    }
}

impl core::str::FromStr for DestinyGraphNodeState {
    type Err = ParseEnumError;

    fn from_str(s: &str) -> (r: Result<DestinyGraphNodeState, ParseEnumError>)
        ensures
            r matches Ok(v) ==> v.spec_name() == s@,
            r matches Err(e) ==> e.input@ == s@ && e.target@ == "DestinyGraphNodeState"@ && (forall|v: DestinyGraphNodeState| v.spec_name() != s@),
            forall|v: DestinyGraphNodeState| #[trigger] v.spec_name() == s@ ==> r == Ok::<DestinyGraphNodeState, ParseEnumError>(v),
    {
        DestinyGraphNodeState::from_str(s)
    }
}

/// The number that stands for a variant on the wire is `value()`; an `as`
/// cast gives the variant's position in the list instead.
#[derive(Clone, Copy, Debug, PartialEq, Eq, Hash, Structural)]
pub enum DestinyPresentationNodeType {
    Default,
    Category,
    Collectibles,
    Records,
    Metric,
    Craftable,
}

impl DestinyPresentationNodeType {
    /// The name of the variant, the text that `from_str` reads.
    pub open spec fn spec_name(self) -> Seq<char> {
        match self {
            DestinyPresentationNodeType::Default => "Default"@,
            DestinyPresentationNodeType::Category => "Category"@,
            DestinyPresentationNodeType::Collectibles => "Collectibles"@,
            DestinyPresentationNodeType::Records => "Records"@,
            DestinyPresentationNodeType::Metric => "Metric"@,
            DestinyPresentationNodeType::Craftable => "Craftable"@,
        }
    }

    /// The number that stands for the variant on the wire.
    pub open spec fn spec_value(self) -> i32 {
        match self {
            DestinyPresentationNodeType::Default => 0,
            DestinyPresentationNodeType::Category => 1,
            DestinyPresentationNodeType::Collectibles => 2,
            DestinyPresentationNodeType::Records => 3,
            DestinyPresentationNodeType::Metric => 4,
            DestinyPresentationNodeType::Craftable => 5,
        }
    }

    /// The number that stands for the variant on the wire.
    pub fn value(&self) -> (v: i32)
        ensures
            v == self.spec_value(),
    {
        match self {
            DestinyPresentationNodeType::Default => 0,
            DestinyPresentationNodeType::Category => 1,
            DestinyPresentationNodeType::Collectibles => 2,
            DestinyPresentationNodeType::Records => 3,
            DestinyPresentationNodeType::Metric => 4,
            DestinyPresentationNodeType::Craftable => 5,
        }
    }

    /// The variant's number written in decimal.
    pub fn to_string(&self) -> (s: String)
        ensures
            s@ == decimal(self.spec_value() as nat),
    {
        let v = self.value();
        format_decimal(v as u32)
    }

    /// The variant named `s`; any other text is refused with an error that
    /// carries it.
    pub fn from_str(s: &str) -> (r: Result<DestinyPresentationNodeType, ParseEnumError>)
        ensures
            r matches Ok(v) ==> v.spec_name() == s@,
            r matches Err(e) ==> e.input@ == s@ && e.target@ == "DestinyPresentationNodeType"@ && (forall|v: DestinyPresentationNodeType| v.spec_name() != s@),
            forall|v: DestinyPresentationNodeType| #[trigger] v.spec_name() == s@ ==> r == Ok::<DestinyPresentationNodeType, ParseEnumError>(v),
    {
        let r = if str_eq(s, "Default") {
            Ok(DestinyPresentationNodeType::Default)
        } else if str_eq(s, "Category") {
            Ok(DestinyPresentationNodeType::Category)
        } else if str_eq(s, "Collectibles") {
            Ok(DestinyPresentationNodeType::Collectibles)
        } else if str_eq(s, "Records") {
            Ok(DestinyPresentationNodeType::Records)
        } else if str_eq(s, "Metric") {
            Ok(DestinyPresentationNodeType::Metric)
        } else if str_eq(s, "Craftable") {
            Ok(DestinyPresentationNodeType::Craftable)
        } else {
            Err(ParseEnumError::new(s, "DestinyPresentationNodeType"))
        };
        proof {
            assert forall|v: DestinyPresentationNodeType| #[trigger] v.spec_name() == s@ implies r == Ok::<DestinyPresentationNodeType, ParseEnumError>(v) by {
                if let Ok(w) = r {
                    DestinyPresentationNodeType::lemma_names_distinct(v, w);
                }
            }
        }
        r
    }

    /// Distinct variants have distinct names.
    pub proof fn lemma_names_distinct(a: DestinyPresentationNodeType, b: DestinyPresentationNodeType)
        ensures
            a.spec_name() == b.spec_name() ==> a == b,
    {
        reveal_strlit("Default");
        assert("Default"@.len() == 7);
        reveal_strlit("Category");
        assert("Category"@.len() == 8);
        reveal_strlit("Collectibles");
        assert("Collectibles"@.len() == 12);
        reveal_strlit("Records");
        assert("Records"@.len() == 7);
        reveal_strlit("Metric");
        assert("Metric"@.len() == 6);
        reveal_strlit("Craftable");
        assert("Craftable"@.len() == 9);
        assert("Default"@[0] != "Records"@[0]);
    }

    /// Distinct variants have distinct numbers.
    pub proof fn lemma_values_distinct(a: DestinyPresentationNodeType, b: DestinyPresentationNodeType)
        ensures
            a.spec_value() == b.spec_value() ==> a == b,
    {
    }
}

impl core::str::FromStr for DestinyPresentationNodeType {
    type Err = ParseEnumError;

    fn from_str(s: &str) -> (r: Result<DestinyPresentationNodeType, ParseEnumError>)
        ensures
            r matches Ok(v) ==> v.spec_name() == s@,
            r matches Err(e) ==> e.input@ == s@ && e.target@ == "DestinyPresentationNodeType"@ && (forall|v: DestinyPresentationNodeType| v.spec_name() != s@),
            forall|v: DestinyPresentationNodeType| #[trigger] v.spec_name() == s@ ==> r == Ok::<DestinyPresentationNodeType, ParseEnumError>(v),
    {
        DestinyPresentationNodeType::from_str(s)
    }
}

/// There's a lot of places where we need to know scope on more than just a profile or character level. For everything else, there's this more generic sense of scope.
///
/// The number that stands for a variant on the wire is `value()`; an `as`
/// cast gives the variant's position in the list instead.
#[derive(Clone, Copy, Debug, PartialEq, Eq, Hash, Structural)]
pub enum DestinyScope {
    Profile,
    Character,
}

impl DestinyScope {
    /// The name of the variant, the text that `from_str` reads.
    pub open spec fn spec_name(self) -> Seq<char> {
        match self {
            DestinyScope::Profile => "Profile"@,
            DestinyScope::Character => "Character"@,
        }
    }

    /// The number that stands for the variant on the wire.
    pub open spec fn spec_value(self) -> i32 {
        match self {
            DestinyScope::Profile => 0,
            DestinyScope::Character => 1,
        }
    }

    /// The number that stands for the variant on the wire.
    pub fn value(&self) -> (v: i32)
        ensures
            v == self.spec_value(),
    {
        match self {
            DestinyScope::Profile => 0,
            DestinyScope::Character => 1,
        }
    }

    /// The variant's number written in decimal.
    pub fn to_string(&self) -> (s: String)
        ensures
            s@ == decimal(self.spec_value() as nat),
    {
        let v = self.value();
        format_decimal(v as u32)
    }

    /// The variant named `s`; any other text is refused with an error that
    /// carries it.
    pub fn from_str(s: &str) -> (r: Result<DestinyScope, ParseEnumError>)
        ensures
            r matches Ok(v) ==> v.spec_name() == s@,
            r matches Err(e) ==> e.input@ == s@ && e.target@ == "DestinyScope"@ && (forall|v: DestinyScope| v.spec_name() != s@),
            forall|v: DestinyScope| #[trigger] v.spec_name() == s@ ==> r == Ok::<DestinyScope, ParseEnumError>(v),
    {
        let r = if str_eq(s, "Profile") {
            Ok(DestinyScope::Profile)
        } else if str_eq(s, "Character") {
            Ok(DestinyScope::Character)
        } else {
            Err(ParseEnumError::new(s, "DestinyScope"))
        };
        proof {
            assert forall|v: DestinyScope| #[trigger] v.spec_name() == s@ implies r == Ok::<DestinyScope, ParseEnumError>(v) by {
                if let Ok(w) = r {
                    DestinyScope::lemma_names_distinct(v, w);
                }
            }
        }
        r
    }

    /// Distinct variants have distinct names.
    pub proof fn lemma_names_distinct(a: DestinyScope, b: DestinyScope)
        ensures
            a.spec_name() == b.spec_name() ==> a == b,
    {
        reveal_strlit("Profile");
        assert("Profile"@.len() == 7);
        reveal_strlit("Character");
        assert("Character"@.len() == 9);
    }

    /// Distinct variants have distinct numbers.
    pub proof fn lemma_values_distinct(a: DestinyScope, b: DestinyScope)
        ensures
            a.spec_value() == b.spec_value() ==> a == b,
    {
    }
}

impl core::str::FromStr for DestinyScope {
    type Err = ParseEnumError;

    fn from_str(s: &str) -> (r: Result<DestinyScope, ParseEnumError>)
        ensures
            r matches Ok(v) ==> v.spec_name() == s@,
            r matches Err(e) ==> e.input@ == s@ && e.target@ == "DestinyScope"@ && (forall|v: DestinyScope| v.spec_name() != s@),
            forall|v: DestinyScope| #[trigger] v.spec_name() == s@ ==> r == Ok::<DestinyScope, ParseEnumError>(v),
    {
        DestinyScope::from_str(s)
    }
}

/// A hint for how the presentation node should be displayed when shown in a list. How you use this is your UI is up to you.
///
/// The number that stands for a variant on the wire is `value()`; an `as`
/// cast gives the variant's position in the list instead.
#[derive(Clone, Copy, Debug, PartialEq, Eq, Hash, Structural)]
pub enum DestinyPresentationDisplayStyle {
    /// Display the item as a category, through which sub-items are filtered.
    Category,
    Badge,
    Medals,
    Collectible,
    Record,
}

impl DestinyPresentationDisplayStyle {
    /// The name of the variant, the text that `from_str` reads.
    pub open spec fn spec_name(self) -> Seq<char> {
        match self {
            DestinyPresentationDisplayStyle::Category => "Category"@,
            DestinyPresentationDisplayStyle::Badge => "Badge"@,
            DestinyPresentationDisplayStyle::Medals => "Medals"@,
            DestinyPresentationDisplayStyle::Collectible => "Collectible"@,
            DestinyPresentationDisplayStyle::Record => "Record"@,
        }
    }

    /// The number that stands for the variant on the wire.
    pub open spec fn spec_value(self) -> i32 {
        match self {
            DestinyPresentationDisplayStyle::Category => 0,
            DestinyPresentationDisplayStyle::Badge => 1,
            DestinyPresentationDisplayStyle::Medals => 2,
            DestinyPresentationDisplayStyle::Collectible => 3,
            DestinyPresentationDisplayStyle::Record => 4,
        }
    }

    /// The number that stands for the variant on the wire.
    pub fn value(&self) -> (v: i32)
        ensures
            v == self.spec_value(),
    {
        match self {
            DestinyPresentationDisplayStyle::Category => 0,
            DestinyPresentationDisplayStyle::Badge => 1,
            DestinyPresentationDisplayStyle::Medals => 2,
            DestinyPresentationDisplayStyle::Collectible => 3,
            DestinyPresentationDisplayStyle::Record => 4,
        }
    }

    /// The variant's number written in decimal.
    pub fn to_string(&self) -> (s: String)
        ensures
            s@ == decimal(self.spec_value() as nat),
    {
        let v = self.value();
        format_decimal(v as u32)
    }

    /// The variant named `s`; any other text is refused with an error that
    /// carries it.
    pub fn from_str(s: &str) -> (r: Result<DestinyPresentationDisplayStyle, ParseEnumError>)
        ensures
            r matches Ok(v) ==> v.spec_name() == s@,
            r matches Err(e) ==> e.input@ == s@ && e.target@ == "DestinyPresentationDisplayStyle"@ && (forall|v: DestinyPresentationDisplayStyle| v.spec_name() != s@),
            forall|v: DestinyPresentationDisplayStyle| #[trigger] v.spec_name() == s@ ==> r == Ok::<DestinyPresentationDisplayStyle, ParseEnumError>(v),
    {
        let r = if str_eq(s, "Category") {
            Ok(DestinyPresentationDisplayStyle::Category)
        } else if str_eq(s, "Badge") {
            Ok(DestinyPresentationDisplayStyle::Badge)
        } else if str_eq(s, "Medals") {
            Ok(DestinyPresentationDisplayStyle::Medals)
        } else if str_eq(s, "Collectible") {
            Ok(DestinyPresentationDisplayStyle::Collectible)
        } else if str_eq(s, "Record") {
            Ok(DestinyPresentationDisplayStyle::Record)
        } else {
            Err(ParseEnumError::new(s, "DestinyPresentationDisplayStyle"))
        };
        proof {
            assert forall|v: DestinyPresentationDisplayStyle| #[trigger] v.spec_name() == s@ implies r == Ok::<DestinyPresentationDisplayStyle, ParseEnumError>(v) by {
                if let Ok(w) = r {
                    DestinyPresentationDisplayStyle::lemma_names_distinct(v, w);
                }
            }
        }
        r
    }

    /// Distinct variants have distinct names.
    pub proof fn lemma_names_distinct(a: DestinyPresentationDisplayStyle, b: DestinyPresentationDisplayStyle)
        ensures
            a.spec_name() == b.spec_name() ==> a == b,
    {
        reveal_strlit("Category");
        assert("Category"@.len() == 8);
        reveal_strlit("Badge");
        assert("Badge"@.len() == 5);
        reveal_strlit("Medals");
        assert("Medals"@.len() == 6);
        reveal_strlit("Collectible");
        assert("Collectible"@.len() == 11);
        reveal_strlit("Record");
        assert("Record"@.len() == 6);
        assert("Medals"@[0] != "Record"@[0]);
    }

    /// Distinct variants have distinct numbers.
    pub proof fn lemma_values_distinct(a: DestinyPresentationDisplayStyle, b: DestinyPresentationDisplayStyle)
        ensures
            a.spec_value() == b.spec_value() ==> a == b,
    {
    }
}

impl core::str::FromStr for DestinyPresentationDisplayStyle {
    type Err = ParseEnumError;

    fn from_str(s: &str) -> (r: Result<DestinyPresentationDisplayStyle, ParseEnumError>)
        ensures
            r matches Ok(v) ==> v.spec_name() == s@,
            r matches Err(e) ==> e.input@ == s@ && e.target@ == "DestinyPresentationDisplayStyle"@ && (forall|v: DestinyPresentationDisplayStyle| v.spec_name() != s@),
            forall|v: DestinyPresentationDisplayStyle| #[trigger] v.spec_name() == s@ ==> r == Ok::<DestinyPresentationDisplayStyle, ParseEnumError>(v),
    {
        DestinyPresentationDisplayStyle::from_str(s)
    }
}

/// The number that stands for a variant on the wire is `value()`; an `as`
/// cast gives the variant's position in the list instead.
#[derive(Clone, Copy, Debug, PartialEq, Eq, Hash, Structural)]
pub enum DestinyRecordValueStyle {
    Integer,
    Percentage,
    Milliseconds,
    Boolean,
    Decimal,
}

impl DestinyRecordValueStyle {
    /// The name of the variant, the text that `from_str` reads.
    pub open spec fn spec_name(self) -> Seq<char> {
        match self {
            DestinyRecordValueStyle::Integer => "Integer"@,
            DestinyRecordValueStyle::Percentage => "Percentage"@,
            DestinyRecordValueStyle::Milliseconds => "Milliseconds"@,
            DestinyRecordValueStyle::Boolean => "Boolean"@,
            DestinyRecordValueStyle::Decimal => "Decimal"@,
        }
    }

    /// The number that stands for the variant on the wire.
    pub open spec fn spec_value(self) -> i32 {
        match self {
            DestinyRecordValueStyle::Integer => 0,
            DestinyRecordValueStyle::Percentage => 1,
            DestinyRecordValueStyle::Milliseconds => 2,
            DestinyRecordValueStyle::Boolean => 3,
            DestinyRecordValueStyle::Decimal => 4,
        }
    }

    /// The number that stands for the variant on the wire.
    pub fn value(&self) -> (v: i32)
        ensures
            v == self.spec_value(),
    {
        match self {
            DestinyRecordValueStyle::Integer => 0,
            DestinyRecordValueStyle::Percentage => 1,
            DestinyRecordValueStyle::Milliseconds => 2,
            DestinyRecordValueStyle::Boolean => 3,
            DestinyRecordValueStyle::Decimal => 4,
        }
    }

    /// The variant's number written in decimal.
    pub fn to_string(&self) -> (s: String)
        ensures
            s@ == decimal(self.spec_value() as nat),
    {
        let v = self.value();
        format_decimal(v as u32)
    }

    /// The variant named `s`; any other text is refused with an error that
    /// carries it.
    pub fn from_str(s: &str) -> (r: Result<DestinyRecordValueStyle, ParseEnumError>)
        ensures
            r matches Ok(v) ==> v.spec_name() == s@,
            r matches Err(e) ==> e.input@ == s@ && e.target@ == "DestinyRecordValueStyle"@ && (forall|v: DestinyRecordValueStyle| v.spec_name() != s@),
            forall|v: DestinyRecordValueStyle| #[trigger] v.spec_name() == s@ ==> r == Ok::<DestinyRecordValueStyle, ParseEnumError>(v),
    {
        let r = if str_eq(s, "Integer") {
            Ok(DestinyRecordValueStyle::Integer)
        } else if str_eq(s, "Percentage") {
            Ok(DestinyRecordValueStyle::Percentage)
        } else if str_eq(s, "Milliseconds") {
            Ok(DestinyRecordValueStyle::Milliseconds)
        } else if str_eq(s, "Boolean") {
            Ok(DestinyRecordValueStyle::Boolean)
        } else if str_eq(s, "Decimal") {
            Ok(DestinyRecordValueStyle::Decimal)
        } else {
            Err(ParseEnumError::new(s, "DestinyRecordValueStyle"))
        };
        proof {
            assert forall|v: DestinyRecordValueStyle| #[trigger] v.spec_name() == s@ implies r == Ok::<DestinyRecordValueStyle, ParseEnumError>(v) by {
                if let Ok(w) = r {
                    DestinyRecordValueStyle::lemma_names_distinct(v, w);
                }
            }
        }
        r
    }

    /// Distinct variants have distinct names.
    pub proof fn lemma_names_distinct(a: DestinyRecordValueStyle, b: DestinyRecordValueStyle)
        ensures
            a.spec_name() == b.spec_name() ==> a == b,
    {
        reveal_strlit("Integer");
        assert("Integer"@.len() == 7);
        reveal_strlit("Percentage");
        assert("Percentage"@.len() == 10);
        reveal_strlit("Milliseconds");
        assert("Milliseconds"@.len() == 12);
        reveal_strlit("Boolean");
        assert("Boolean"@.len() == 7);
        reveal_strlit("Decimal");
        assert("Decimal"@.len() == 7);
        assert("Integer"@[0] != "Boolean"@[0]);
        assert("Integer"@[0] != "Decimal"@[0]);
        assert("Boolean"@[0] != "Decimal"@[0]);
    }

    /// Distinct variants have distinct numbers.
    pub proof fn lemma_values_distinct(a: DestinyRecordValueStyle, b: DestinyRecordValueStyle)
        ensures
            a.spec_value() == b.spec_value() ==> a == b,
    {
    }
}

impl core::str::FromStr for DestinyRecordValueStyle {
    type Err = ParseEnumError;

    fn from_str(s: &str) -> (r: Result<DestinyRecordValueStyle, ParseEnumError>)
        ensures
            r matches Ok(v) ==> v.spec_name() == s@,
            r matches Err(e) ==> e.input@ == s@ && e.target@ == "DestinyRecordValueStyle"@ && (forall|v: DestinyRecordValueStyle| v.spec_name() != s@),
            forall|v: DestinyRecordValueStyle| #[trigger] v.spec_name() == s@ ==> r == Ok::<DestinyRecordValueStyle, ParseEnumError>(v),
    {
        DestinyRecordValueStyle::from_str(s)
    }
}

/// The number that stands for a variant on the wire is `value()`; an `as`
/// cast gives the variant's position in the list instead.
#[derive(Clone, Copy, Debug, PartialEq, Eq, Hash, Structural)]
pub enum DestinyRecordToastStyle {
    /// The API calls this variant `None`; `from_str` reads that name.
    None_,
    Record,
    Lore,
    Badge,
    MetaRecord,
    MedalComplete,
    SeasonChallengeComplete,
    GildedTitleComplete,
    CraftingRecipeUnlocked,
}

impl DestinyRecordToastStyle {
    /// The name of the variant, the text that `from_str` reads.
    pub open spec fn spec_name(self) -> Seq<char> {
        match self {
            DestinyRecordToastStyle::None_ => "None"@,
            DestinyRecordToastStyle::Record => "Record"@,
            DestinyRecordToastStyle::Lore => "Lore"@,
            DestinyRecordToastStyle::Badge => "Badge"@,
            DestinyRecordToastStyle::MetaRecord => "MetaRecord"@,
            DestinyRecordToastStyle::MedalComplete => "MedalComplete"@,
            DestinyRecordToastStyle::SeasonChallengeComplete => "SeasonChallengeComplete"@,
            DestinyRecordToastStyle::GildedTitleComplete => "GildedTitleComplete"@,
            DestinyRecordToastStyle::CraftingRecipeUnlocked => "CraftingRecipeUnlocked"@,
        }
    }

    /// The number that stands for the variant on the wire.
    pub open spec fn spec_value(self) -> i32 {
        match self {
            DestinyRecordToastStyle::None_ => 0,
            DestinyRecordToastStyle::Record => 1,
            DestinyRecordToastStyle::Lore => 2,
            DestinyRecordToastStyle::Badge => 3,
            DestinyRecordToastStyle::MetaRecord => 4,
            DestinyRecordToastStyle::MedalComplete => 5,
            DestinyRecordToastStyle::SeasonChallengeComplete => 6,
            DestinyRecordToastStyle::GildedTitleComplete => 7,
            DestinyRecordToastStyle::CraftingRecipeUnlocked => 8,
        }
    }

    /// The number that stands for the variant on the wire.
    pub fn value(&self) -> (v: i32)
        ensures
            v == self.spec_value(),
    {
        match self {
            DestinyRecordToastStyle::None_ => 0,
            DestinyRecordToastStyle::Record => 1,
            DestinyRecordToastStyle::Lore => 2,
            DestinyRecordToastStyle::Badge => 3,
            DestinyRecordToastStyle::MetaRecord => 4,
            DestinyRecordToastStyle::MedalComplete => 5,
            DestinyRecordToastStyle::SeasonChallengeComplete => 6,
            DestinyRecordToastStyle::GildedTitleComplete => 7,
            DestinyRecordToastStyle::CraftingRecipeUnlocked => 8,
        }
    }

    /// The variant's number written in decimal.
    pub fn to_string(&self) -> (s: String)
        ensures
            s@ == decimal(self.spec_value() as nat),
    {
        let v = self.value();
        format_decimal(v as u32)
    }

    /// The variant named `s`; any other text is refused with an error that
    /// carries it.
    pub fn from_str(s: &str) -> (r: Result<DestinyRecordToastStyle, ParseEnumError>)
        ensures
            r matches Ok(v) ==> v.spec_name() == s@,
            r matches Err(e) ==> e.input@ == s@ && e.target@ == "DestinyRecordToastStyle"@ && (forall|v: DestinyRecordToastStyle| v.spec_name() != s@),
            forall|v: DestinyRecordToastStyle| #[trigger] v.spec_name() == s@ ==> r == Ok::<DestinyRecordToastStyle, ParseEnumError>(v),
    {
        let r = if str_eq(s, "None") {
            Ok(DestinyRecordToastStyle::None_)
        } else if str_eq(s, "Record") {
            Ok(DestinyRecordToastStyle::Record)
        } else if str_eq(s, "Lore") {
            Ok(DestinyRecordToastStyle::Lore)
        } else if str_eq(s, "Badge") {
            Ok(DestinyRecordToastStyle::Badge)
        } else if str_eq(s, "MetaRecord") {
            Ok(DestinyRecordToastStyle::MetaRecord)
        } else if str_eq(s, "MedalComplete") {
            Ok(DestinyRecordToastStyle::MedalComplete)
        } else if str_eq(s, "SeasonChallengeComplete") {
            Ok(DestinyRecordToastStyle::SeasonChallengeComplete)
        } else if str_eq(s, "GildedTitleComplete") {
            Ok(DestinyRecordToastStyle::GildedTitleComplete)
        } else if str_eq(s, "CraftingRecipeUnlocked") {
            Ok(DestinyRecordToastStyle::CraftingRecipeUnlocked)
        } else {
            Err(ParseEnumError::new(s, "DestinyRecordToastStyle"))
        };
        proof {
            assert forall|v: DestinyRecordToastStyle| #[trigger] v.spec_name() == s@ implies r == Ok::<DestinyRecordToastStyle, ParseEnumError>(v) by {
                if let Ok(w) = r {
                    DestinyRecordToastStyle::lemma_names_distinct(v, w);
                }
            }
        }
        r
    }

    /// Distinct variants have distinct names.
    pub proof fn lemma_names_distinct(a: DestinyRecordToastStyle, b: DestinyRecordToastStyle)
        ensures
            a.spec_name() == b.spec_name() ==> a == b,
    {
        reveal_strlit("None");
        assert("None"@.len() == 4);
        reveal_strlit("Record");
        assert("Record"@.len() == 6);
        reveal_strlit("Lore");
        assert("Lore"@.len() == 4);
        reveal_strlit("Badge");
        assert("Badge"@.len() == 5);
        reveal_strlit("MetaRecord");
        assert("MetaRecord"@.len() == 10);
        reveal_strlit("MedalComplete");
        assert("MedalComplete"@.len() == 13);
        reveal_strlit("SeasonChallengeComplete");
        assert("SeasonChallengeComplete"@.len() == 23);
        reveal_strlit("GildedTitleComplete");
        assert("GildedTitleComplete"@.len() == 19);
        reveal_strlit("CraftingRecipeUnlocked");
        assert("CraftingRecipeUnlocked"@.len() == 22);
        assert("None"@[0] != "Lore"@[0]);
    }

    /// Distinct variants have distinct numbers.
    pub proof fn lemma_values_distinct(a: DestinyRecordToastStyle, b: DestinyRecordToastStyle)
        ensures
            a.spec_value() == b.spec_value() ==> a == b,
    {
    }
}

impl core::str::FromStr for DestinyRecordToastStyle {
    type Err = ParseEnumError;

    fn from_str(s: &str) -> (r: Result<DestinyRecordToastStyle, ParseEnumError>)
        ensures
            r matches Ok(v) ==> v.spec_name() == s@,
            r matches Err(e) ==> e.input@ == s@ && e.target@ == "DestinyRecordToastStyle"@ && (forall|v: DestinyRecordToastStyle| v.spec_name() != s@),
            forall|v: DestinyRecordToastStyle| #[trigger] v.spec_name() == s@ ==> r == Ok::<DestinyRecordToastStyle, ParseEnumError>(v),
    {
        DestinyRecordToastStyle::from_str(s)
    }
}

/// A hint for what screen should be shown when this presentation node is clicked into. How you use this is your UI is up to you.
///
/// The number that stands for a variant on the wire is `value()`; an `as`
/// cast gives the variant's position in the list instead.
#[derive(Clone, Copy, Debug, PartialEq, Eq, Hash, Structural)]
pub enum DestinyPresentationScreenStyle {
    /// Use the "default" view for the presentation nodes.
    Default,
    /// Show sub-items as "category sets". In-game, you'd see these as a vertical list of child presentation nodes - armor sets for example - and the icons of items within those sets displayed horizontally.
    CategorySets,
    /// Show sub-items as Badges. (I know, I know. We don't need no stinkin' badges har har har)
    Badge,
}

impl DestinyPresentationScreenStyle {
    /// The name of the variant, the text that `from_str` reads.
    pub open spec fn spec_name(self) -> Seq<char> {
        match self {
            DestinyPresentationScreenStyle::Default => "Default"@,
            DestinyPresentationScreenStyle::CategorySets => "CategorySets"@,
            DestinyPresentationScreenStyle::Badge => "Badge"@,
        }
    }

    /// The number that stands for the variant on the wire.
    pub open spec fn spec_value(self) -> i32 {
        match self {
            DestinyPresentationScreenStyle::Default => 0,
            DestinyPresentationScreenStyle::CategorySets => 1,
            DestinyPresentationScreenStyle::Badge => 2,
        }
    }

    /// The number that stands for the variant on the wire.
    pub fn value(&self) -> (v: i32)
        ensures
            v == self.spec_value(),
    {
        match self {
            DestinyPresentationScreenStyle::Default => 0,
            DestinyPresentationScreenStyle::CategorySets => 1,
            DestinyPresentationScreenStyle::Badge => 2,
        }
    }

    /// The variant's number written in decimal.
    pub fn to_string(&self) -> (s: String)
        ensures
            s@ == decimal(self.spec_value() as nat),
    {
        let v = self.value();
        format_decimal(v as u32)
    }

    /// The variant named `s`; any other text is refused with an error that
    /// carries it.
    pub fn from_str(s: &str) -> (r: Result<DestinyPresentationScreenStyle, ParseEnumError>)
        ensures
            r matches Ok(v) ==> v.spec_name() == s@,
            r matches Err(e) ==> e.input@ == s@ && e.target@ == "DestinyPresentationScreenStyle"@ && (forall|v: DestinyPresentationScreenStyle| v.spec_name() != s@),
            forall|v: DestinyPresentationScreenStyle| #[trigger] v.spec_name() == s@ ==> r == Ok::<DestinyPresentationScreenStyle, ParseEnumError>(v),
    {
        let r = if str_eq(s, "Default") {
            Ok(DestinyPresentationScreenStyle::Default)
        } else if str_eq(s, "CategorySets") {
            Ok(DestinyPresentationScreenStyle::CategorySets)
        } else if str_eq(s, "Badge") {
            Ok(DestinyPresentationScreenStyle::Badge)
        } else {
            Err(ParseEnumError::new(s, "DestinyPresentationScreenStyle"))
        };
        proof {
            assert forall|v: DestinyPresentationScreenStyle| #[trigger] v.spec_name() == s@ implies r == Ok::<DestinyPresentationScreenStyle, ParseEnumError>(v) by {
                if let Ok(w) = r {
                    DestinyPresentationScreenStyle::lemma_names_distinct(v, w);
                }
            }
        }
        r
    }

    /// Distinct variants have distinct names.
    pub proof fn lemma_names_distinct(a: DestinyPresentationScreenStyle, b: DestinyPresentationScreenStyle)
        ensures
            a.spec_name() == b.spec_name() ==> a == b,
    {
        reveal_strlit("Default");
        assert("Default"@.len() == 7);
        reveal_strlit("CategorySets");
        assert("CategorySets"@.len() == 12);
        reveal_strlit("Badge");
        assert("Badge"@.len() == 5);
    }

    /// Distinct variants have distinct numbers.
    pub proof fn lemma_values_distinct(a: DestinyPresentationScreenStyle, b: DestinyPresentationScreenStyle)
        ensures
            a.spec_value() == b.spec_value() ==> a == b,
    {
    }
}

impl core::str::FromStr for DestinyPresentationScreenStyle {
    type Err = ParseEnumError;

    fn from_str(s: &str) -> (r: Result<DestinyPresentationScreenStyle, ParseEnumError>)
        ensures
            r matches Ok(v) ==> v.spec_name() == s@,
            r matches Err(e) ==> e.input@ == s@ && e.target@ == "DestinyPresentationScreenStyle"@ && (forall|v: DestinyPresentationScreenStyle| v.spec_name() != s@),
            forall|v: DestinyPresentationScreenStyle| #[trigger] v.spec_name() == s@ ==> r == Ok::<DestinyPresentationScreenStyle, ParseEnumError>(v),
    {
        DestinyPresentationScreenStyle::from_str(s)
    }
}

/// I know this doesn't look like a Flags Enumeration/bitmask right now, but I assure you it is. This is the possible states that a Presentation Node can be in, and it is almost certain that its potential states will increase in the future. So don't treat it like a straight up enumeration.
///
/// The number that stands for a variant on the wire is `value()`; an `as`
/// cast gives the variant's position in the list instead.
///
/// Each variant is one flag: its number has exactly one bit set.
#[derive(Clone, Copy, Debug, PartialEq, Eq, Hash, Structural)]
pub enum DestinyPresentationNodeState {
    /// If this is set, the game recommends that you not show this node. But you know your life, do what you've got to do.
    Invisible,
    /// Turns out Presentation Nodes can also be obscured. If they are, this is set.
    Obscured,
}

impl DestinyPresentationNodeState {
    /// The name of the variant, the text that `from_str` reads.
    pub open spec fn spec_name(self) -> Seq<char> {
        match self {
            DestinyPresentationNodeState::Invisible => "Invisible"@,
            DestinyPresentationNodeState::Obscured => "Obscured"@,
        }
    }

    /// The number that stands for the variant on the wire.
    pub open spec fn spec_value(self) -> u32 {
        match self {
            DestinyPresentationNodeState::Invisible => 1,
            DestinyPresentationNodeState::Obscured => 2,
        }
    }

    /// The number that stands for the variant on the wire.
    pub fn value(&self) -> (v: u32)
        ensures
            v == self.spec_value(),
    {
        match self {
            DestinyPresentationNodeState::Invisible => 1,
            DestinyPresentationNodeState::Obscured => 2,
        }
    }

    /// The variant's number written in decimal.
    pub fn to_string(&self) -> (s: String)
        ensures
            s@ == decimal(self.spec_value() as nat),
    {
        format_decimal(self.value())
    }

    /// The variant named `s`; any other text is refused with an error that
    /// carries it.
    pub fn from_str(s: &str) -> (r: Result<DestinyPresentationNodeState, ParseEnumError>)
        ensures
            r matches Ok(v) ==> v.spec_name() == s@,
            r matches Err(e) ==> e.input@ == s@ && e.target@ == "DestinyPresentationNodeState"@ && (forall|v: DestinyPresentationNodeState| v.spec_name() != s@),
            forall|v: DestinyPresentationNodeState| #[trigger] v.spec_name() == s@ ==> r == Ok::<DestinyPresentationNodeState, ParseEnumError>(v),
    {
        let r = if str_eq(s, "Invisible") {
            Ok(DestinyPresentationNodeState::Invisible)
        } else if str_eq(s, "Obscured") {
            Ok(DestinyPresentationNodeState::Obscured)
        } else {
            Err(ParseEnumError::new(s, "DestinyPresentationNodeState"))
        };
        proof {
            assert forall|v: DestinyPresentationNodeState| #[trigger] v.spec_name() == s@ implies r == Ok::<DestinyPresentationNodeState, ParseEnumError>(v) by {
                if let Ok(w) = r {
                    DestinyPresentationNodeState::lemma_names_distinct(v, w);
                }
            }
        }
        r
    }

    /// Distinct variants have distinct names.
    pub proof fn lemma_names_distinct(a: DestinyPresentationNodeState, b: DestinyPresentationNodeState)
        ensures
            a.spec_name() == b.spec_name() ==> a == b,
    {
        reveal_strlit("Invisible");
        assert("Invisible"@.len() == 9);
        reveal_strlit("Obscured");
        assert("Obscured"@.len() == 8);
    }

    /// Distinct variants have distinct numbers.
    pub proof fn lemma_values_distinct(a: DestinyPresentationNodeState, b: DestinyPresentationNodeState)
        ensures
            a.spec_value() == b.spec_value() ==> a == b,
    {
    }

    /// The number of every variant has exactly one bit set.
    pub proof fn lemma_single_bit(v: DestinyPresentationNodeState)
        ensures
            is_single_bit(v.spec_value()),
    {
        assert(is_single_bit(1u32) && is_single_bit(2u32)) by (bit_vector);
    }

    /// Distinct variants share no bit of their numbers.
    pub proof fn lemma_flags_disjoint(a: DestinyPresentationNodeState, b: DestinyPresentationNodeState)
        ensures
            a != b ==> a.spec_value() & b.spec_value() == 0,
    {
        if a != b {
            DestinyPresentationNodeState::lemma_single_bit(a);
            DestinyPresentationNodeState::lemma_single_bit(b);
            DestinyPresentationNodeState::lemma_values_distinct(a, b);
            lemma_single_bits_disjoint(a.spec_value(), b.spec_value());
        }
    }
}

impl core::str::FromStr for DestinyPresentationNodeState {
    type Err = ParseEnumError;

    fn from_str(s: &str) -> (r: Result<DestinyPresentationNodeState, ParseEnumError>)
        ensures
            r matches Ok(v) ==> v.spec_name() == s@,
            r matches Err(e) ==> e.input@ == s@ && e.target@ == "DestinyPresentationNodeState"@ && (forall|v: DestinyPresentationNodeState| v.spec_name() != s@),
            forall|v: DestinyPresentationNodeState| #[trigger] v.spec_name() == s@ ==> r == Ok::<DestinyPresentationNodeState, ParseEnumError>(v),
    {
        DestinyPresentationNodeState::from_str(s)
    }
}

/// A Flags enumeration/bitmask where each bit represents a possible state that a Record/Triumph can be in.
///
/// The number that stands for a variant on the wire is `value()`; an `as`
/// cast gives the variant's position in the list instead.
///
/// Each variant is one flag: its number has exactly one bit set.
#[derive(Clone, Copy, Debug, PartialEq, Eq, Hash, Structural)]
pub enum DestinyRecordState {
    /// If this is set, the completed record has been redeemed.
    RecordRedeemed,
    /// If this is set, there's a reward available from this Record but it's unavailable for redemption.
    RewardUnavailable,
    /// If this is set, the objective for this Record has not yet been completed.
    ObjectiveNotCompleted,
    /// If this is set, the game recommends that you replace the display text of this Record with DestinyRecordDefinition.stateInfo.obscuredString.
    Obscured,
    /// If this is set, the game recommends that you not show this record. Do what you will with this recommendation.
    Invisible,
    /// If this is set, you can't complete this record because you lack some permission that's required to complete it.
    EntitlementUnowned,
    /// If this is set, the record has a title (check DestinyRecordDefinition for title info) and you can equip it.
    CanEquipTitle,
}

impl DestinyRecordState {
    /// The name of the variant, the text that `from_str` reads.
    pub open spec fn spec_name(self) -> Seq<char> {
        match self {
            DestinyRecordState::RecordRedeemed => "RecordRedeemed"@,
            DestinyRecordState::RewardUnavailable => "RewardUnavailable"@,
            DestinyRecordState::ObjectiveNotCompleted => "ObjectiveNotCompleted"@,
            DestinyRecordState::Obscured => "Obscured"@,
            DestinyRecordState::Invisible => "Invisible"@,
            DestinyRecordState::EntitlementUnowned => "EntitlementUnowned"@,
            DestinyRecordState::CanEquipTitle => "CanEquipTitle"@,
        }
    }

    /// The number that stands for the variant on the wire.
    pub open spec fn spec_value(self) -> u32 {
        match self {
            DestinyRecordState::RecordRedeemed => 1,
            DestinyRecordState::RewardUnavailable => 2,
            DestinyRecordState::ObjectiveNotCompleted => 4,
            DestinyRecordState::Obscured => 8,
            DestinyRecordState::Invisible => 16,
            DestinyRecordState::EntitlementUnowned => 32,
            DestinyRecordState::CanEquipTitle => 64,
        }
    }

    /// The number that stands for the variant on the wire.
    pub fn value(&self) -> (v: u32)
        ensures
            v == self.spec_value(),
    {
        match self {
            DestinyRecordState::RecordRedeemed => 1,
            DestinyRecordState::RewardUnavailable => 2,
            DestinyRecordState::ObjectiveNotCompleted => 4,
            DestinyRecordState::Obscured => 8,
            DestinyRecordState::Invisible => 16,
            DestinyRecordState::EntitlementUnowned => 32,
            DestinyRecordState::CanEquipTitle => 64,
        }
    }

    /// The variant's number written in decimal.
    pub fn to_string(&self) -> (s: String)
        ensures
            s@ == decimal(self.spec_value() as nat),
    {
        format_decimal(self.value())
    }

    /// The variant named `s`; any other text is refused with an error that
    /// carries it.
    pub fn from_str(s: &str) -> (r: Result<DestinyRecordState, ParseEnumError>)
        ensures
            r matches Ok(v) ==> v.spec_name() == s@,
            r matches Err(e) ==> e.input@ == s@ && e.target@ == "DestinyRecordState"@ && (forall|v: DestinyRecordState| v.spec_name() != s@),
            forall|v: DestinyRecordState| #[trigger] v.spec_name() == s@ ==> r == Ok::<DestinyRecordState, ParseEnumError>(v),
    {
        let r = if str_eq(s, "RecordRedeemed") {
            Ok(DestinyRecordState::RecordRedeemed)
        } else if str_eq(s, "RewardUnavailable") {
            Ok(DestinyRecordState::RewardUnavailable)
        } else if str_eq(s, "ObjectiveNotCompleted") {
            Ok(DestinyRecordState::ObjectiveNotCompleted)
        } else if str_eq(s, "Obscured") {
            Ok(DestinyRecordState::Obscured)
        } else if str_eq(s, "Invisible") {
            Ok(DestinyRecordState::Invisible)
        } else if str_eq(s, "EntitlementUnowned") {
            Ok(DestinyRecordState::EntitlementUnowned)
        } else if str_eq(s, "CanEquipTitle") {
            Ok(DestinyRecordState::CanEquipTitle)
        } else {
            Err(ParseEnumError::new(s, "DestinyRecordState"))
        };
        proof {
            assert forall|v: DestinyRecordState| #[trigger] v.spec_name() == s@ implies r == Ok::<DestinyRecordState, ParseEnumError>(v) by {
                if let Ok(w) = r {
                    DestinyRecordState::lemma_names_distinct(v, w);
                }
            }
        }
        r
    }

    /// Distinct variants have distinct names.
    pub proof fn lemma_names_distinct(a: DestinyRecordState, b: DestinyRecordState)
        ensures
            a.spec_name() == b.spec_name() ==> a == b,
    {
        reveal_strlit("RecordRedeemed");
        assert("RecordRedeemed"@.len() == 14);
        reveal_strlit("RewardUnavailable");
        assert("RewardUnavailable"@.len() == 17);
        reveal_strlit("ObjectiveNotCompleted");
        assert("ObjectiveNotCompleted"@.len() == 21);
        reveal_strlit("Obscured");
        assert("Obscured"@.len() == 8);
        reveal_strlit("Invisible");
        assert("Invisible"@.len() == 9);
        reveal_strlit("EntitlementUnowned");
        assert("EntitlementUnowned"@.len() == 18);
        reveal_strlit("CanEquipTitle");
        assert("CanEquipTitle"@.len() == 13);
    }

    /// Distinct variants have distinct numbers.
    pub proof fn lemma_values_distinct(a: DestinyRecordState, b: DestinyRecordState)
        ensures
            a.spec_value() == b.spec_value() ==> a == b,
    {
    }

    /// The number of every variant has exactly one bit set.
    pub proof fn lemma_single_bit(v: DestinyRecordState)
        ensures
            is_single_bit(v.spec_value()),
    {
        assert(is_single_bit(1u32) && is_single_bit(2u32) && is_single_bit(4u32) && is_single_bit(8u32) && is_single_bit(16u32) && is_single_bit(32u32) && is_single_bit(64u32)) by (bit_vector);
    }

    /// Distinct variants share no bit of their numbers.
    pub proof fn lemma_flags_disjoint(a: DestinyRecordState, b: DestinyRecordState)
        ensures
            a != b ==> a.spec_value() & b.spec_value() == 0,
    {
        if a != b {
            DestinyRecordState::lemma_single_bit(a);
            DestinyRecordState::lemma_single_bit(b);
            DestinyRecordState::lemma_values_distinct(a, b);
            lemma_single_bits_disjoint(a.spec_value(), b.spec_value());
        }
    }
}

impl core::str::FromStr for DestinyRecordState {
    type Err = ParseEnumError;

    fn from_str(s: &str) -> (r: Result<DestinyRecordState, ParseEnumError>)
        ensures
            r matches Ok(v) ==> v.spec_name() == s@,
            r matches Err(e) ==> e.input@ == s@ && e.target@ == "DestinyRecordState"@ && (forall|v: DestinyRecordState| v.spec_name() != s@),
            forall|v: DestinyRecordState| #[trigger] v.spec_name() == s@ ==> r == Ok::<DestinyRecordState, ParseEnumError>(v),
    {
        DestinyRecordState::from_str(s)
    }
}

/// A Flags Enumeration/bitmask where each bit represents a different state that the Collectible can be in. A collectible can be in any number of these states, and you can choose to use or ignore any or all of them when making your own UI that shows Collectible info. Our displays are going to honor them, but we're also the kind of people who only pretend to inhale before quickly passing it to the left. So, you know, do what you got to do.
/// (All joking aside, please note the caveat I mention around the Invisible flag: there are cases where it is in the best interest of your users to honor these flags even if you're a "show all the data" person. Collector-oriented compulsion is a very unfortunate and real thing, and I would hate to instill that compulsion in others through showing them items that they cannot earn. Please consider this when you are making your own apps/sites.)
///
/// The number that stands for a variant on the wire is `value()`; an `as`
/// cast gives the variant's position in the list instead.
///
/// Each variant is one flag: its number has exactly one bit set.
#[derive(Clone, Copy, Debug, PartialEq, Eq, Hash, Structural)]
pub enum DestinyCollectibleState {
    /// If this flag is set, you have not yet obtained this collectible.
    NotAcquired,
    /// If this flag is set, the item is "obscured" to you: you can/should use the alternate item hash found in DestinyCollectibleDefinition.stateInfo.obscuredOverrideItemHash when displaying this collectible instead of the default display info.
    Obscured,
    /// If this flag is set, the collectible should not be shown to the user.
    /// Please do consider honoring this flag. It is used - for example - to hide items that a person didn't get from the Eververse. I can't prevent these from being returned in definitions, because some people may have acquired them and thus they should show up: but I would hate for people to start feeling some variant of a Collector's Remorse about these items, and thus increasing their purchasing based on that compulsion. That would be a very unfortunate outcome, and one that I wouldn't like to see happen. So please, whether or not I'm your mom, consider honoring this flag and don't show people invisible collectibles.
    Invisible,
    /// If this flag is set, the collectible requires payment for creating an instance of the item, and you are lacking in currency. Bring the benjamins next time. Or spinmetal. Whatever.
    CannotAffordMaterialRequirements,
    /// If this flag is set, you can't pull this item out of your collection because there's no room left in your inventory.
    InventorySpaceUnavailable,
    /// If this flag is set, you already have one of these items and can't have a second one.
    UniquenessViolation,
    /// If this flag is set, the ability to pull this item out of your collection has been disabled.
    PurchaseDisabled,
}

impl DestinyCollectibleState {
    /// The name of the variant, the text that `from_str` reads.
    pub open spec fn spec_name(self) -> Seq<char> {
        match self {
            DestinyCollectibleState::NotAcquired => "NotAcquired"@,
            DestinyCollectibleState::Obscured => "Obscured"@,
            DestinyCollectibleState::Invisible => "Invisible"@,
            DestinyCollectibleState::CannotAffordMaterialRequirements => "CannotAffordMaterialRequirements"@,
            DestinyCollectibleState::InventorySpaceUnavailable => "InventorySpaceUnavailable"@,
            DestinyCollectibleState::UniquenessViolation => "UniquenessViolation"@,
            DestinyCollectibleState::PurchaseDisabled => "PurchaseDisabled"@,
        }
    }

    /// The number that stands for the variant on the wire.
    pub open spec fn spec_value(self) -> u32 {
        match self {
            DestinyCollectibleState::NotAcquired => 1,
            DestinyCollectibleState::Obscured => 2,
            DestinyCollectibleState::Invisible => 4,
            DestinyCollectibleState::CannotAffordMaterialRequirements => 8,
            DestinyCollectibleState::InventorySpaceUnavailable => 16,
            DestinyCollectibleState::UniquenessViolation => 32,
            DestinyCollectibleState::PurchaseDisabled => 64,
        }
    }

    /// The number that stands for the variant on the wire.
    pub fn value(&self) -> (v: u32)
        ensures
            v == self.spec_value(),
    {
        match self {
            DestinyCollectibleState::NotAcquired => 1,
            DestinyCollectibleState::Obscured => 2,
            DestinyCollectibleState::Invisible => 4,
            DestinyCollectibleState::CannotAffordMaterialRequirements => 8,
            DestinyCollectibleState::InventorySpaceUnavailable => 16,
            DestinyCollectibleState::UniquenessViolation => 32,
            DestinyCollectibleState::PurchaseDisabled => 64,
        }
    }

    /// The variant's number written in decimal.
    pub fn to_string(&self) -> (s: String)
        ensures
            s@ == decimal(self.spec_value() as nat),
    {
        format_decimal(self.value())
    }

    /// The variant named `s`; any other text is refused with an error that
    /// carries it.
    pub fn from_str(s: &str) -> (r: Result<DestinyCollectibleState, ParseEnumError>)
        ensures
            r matches Ok(v) ==> v.spec_name() == s@,
            r matches Err(e) ==> e.input@ == s@ && e.target@ == "DestinyCollectibleState"@ && (forall|v: DestinyCollectibleState| v.spec_name() != s@),
            forall|v: DestinyCollectibleState| #[trigger] v.spec_name() == s@ ==> r == Ok::<DestinyCollectibleState, ParseEnumError>(v),
    {
        let r = if str_eq(s, "NotAcquired") {
            Ok(DestinyCollectibleState::NotAcquired)
        } else if str_eq(s, "Obscured") {
            Ok(DestinyCollectibleState::Obscured)
        } else if str_eq(s, "Invisible") {
            Ok(DestinyCollectibleState::Invisible)
        } else if str_eq(s, "CannotAffordMaterialRequirements") {
            Ok(DestinyCollectibleState::CannotAffordMaterialRequirements)
        } else if str_eq(s, "InventorySpaceUnavailable") {
            Ok(DestinyCollectibleState::InventorySpaceUnavailable)
        } else if str_eq(s, "UniquenessViolation") {
            Ok(DestinyCollectibleState::UniquenessViolation)
        } else if str_eq(s, "PurchaseDisabled") {
            Ok(DestinyCollectibleState::PurchaseDisabled)
        } else {
            Err(ParseEnumError::new(s, "DestinyCollectibleState"))
        };
        proof {
            assert forall|v: DestinyCollectibleState| #[trigger] v.spec_name() == s@ implies r == Ok::<DestinyCollectibleState, ParseEnumError>(v) by {
                if let Ok(w) = r {
                    DestinyCollectibleState::lemma_names_distinct(v, w);
                }
            }
        }
        r
    }

    /// Distinct variants have distinct names.
    pub proof fn lemma_names_distinct(a: DestinyCollectibleState, b: DestinyCollectibleState)
        ensures
            a.spec_name() == b.spec_name() ==> a == b,
    {
        reveal_strlit("NotAcquired");
        assert("NotAcquired"@.len() == 11);
        reveal_strlit("Obscured");
        assert("Obscured"@.len() == 8);
        reveal_strlit("Invisible");
        assert("Invisible"@.len() == 9);
        reveal_strlit("CannotAffordMaterialRequirements");
        assert("CannotAffordMaterialRequirements"@.len() == 32);
        reveal_strlit("InventorySpaceUnavailable");
        assert("InventorySpaceUnavailable"@.len() == 25);
        reveal_strlit("UniquenessViolation");
        assert("UniquenessViolation"@.len() == 19);
        reveal_strlit("PurchaseDisabled");
        assert("PurchaseDisabled"@.len() == 16);
    }

    /// Distinct variants have distinct numbers.
    pub proof fn lemma_values_distinct(a: DestinyCollectibleState, b: DestinyCollectibleState)
        ensures
            a.spec_value() == b.spec_value() ==> a == b,
    {
    }

    /// The number of every variant has exactly one bit set.
    pub proof fn lemma_single_bit(v: DestinyCollectibleState)
        ensures
            is_single_bit(v.spec_value()),
    {
        assert(is_single_bit(1u32) && is_single_bit(2u32) && is_single_bit(4u32) && is_single_bit(8u32) && is_single_bit(16u32) && is_single_bit(32u32) && is_single_bit(64u32)) by (bit_vector);
    }

    /// Distinct variants share no bit of their numbers.
    pub proof fn lemma_flags_disjoint(a: DestinyCollectibleState, b: DestinyCollectibleState)
        ensures
            a != b ==> a.spec_value() & b.spec_value() == 0,
    {
        if a != b {
            DestinyCollectibleState::lemma_single_bit(a);
            DestinyCollectibleState::lemma_single_bit(b);
            DestinyCollectibleState::lemma_values_distinct(a, b);
            lemma_single_bits_disjoint(a.spec_value(), b.spec_value());
        }
    }
}

impl core::str::FromStr for DestinyCollectibleState {
    type Err = ParseEnumError;

    fn from_str(s: &str) -> (r: Result<DestinyCollectibleState, ParseEnumError>)
        ensures
            r matches Ok(v) ==> v.spec_name() == s@,
            r matches Err(e) ==> e.input@ == s@ && e.target@ == "DestinyCollectibleState"@ && (forall|v: DestinyCollectibleState| v.spec_name() != s@),
            forall|v: DestinyCollectibleState| #[trigger] v.spec_name() == s@ ==> r == Ok::<DestinyCollectibleState, ParseEnumError>(v),
    {
        DestinyCollectibleState::from_str(s)
    }
}

} // verus!
