//! Sockets and the plugs that go into them.
use vstd::prelude::*;
use crate::error::ParseEnumError;
use crate::text::{decimal, format_decimal, str_eq};
use crate::flags::{is_single_bit, lemma_single_bits_disjoint};

verus! {

/// Indicates the type of actions that can be performed
///
/// The number that stands for a variant on the wire is `value()`; an `as`
/// cast gives the variant's position in the list instead.
#[derive(Clone, Copy, Debug, PartialEq, Eq, Hash, Structural)]
pub enum SocketTypeActionType {
    InsertPlug,
    InfuseItem,
    ReinitializeSocket,
}

impl SocketTypeActionType {
    /// The name of the variant, the text that `from_str` reads.
    pub open spec fn spec_name(self) -> Seq<char> {
        match self {
            SocketTypeActionType::InsertPlug => "InsertPlug"@,
            SocketTypeActionType::InfuseItem => "InfuseItem"@,
            SocketTypeActionType::ReinitializeSocket => "ReinitializeSocket"@,
        }
    }

    /// The number that stands for the variant on the wire.
    pub open spec fn spec_value(self) -> i32 {
        match self {
            SocketTypeActionType::InsertPlug => 0,
            SocketTypeActionType::InfuseItem => 1,
            SocketTypeActionType::ReinitializeSocket => 2,
        }
    }

    /// The number that stands for the variant on the wire.
    pub fn value(&self) -> (v: i32)
        ensures
            v == self.spec_value(),
    {
        match self {
            SocketTypeActionType::InsertPlug => 0,
            SocketTypeActionType::InfuseItem => 1,
            SocketTypeActionType::ReinitializeSocket => 2,
        }
    }

    /// The variant's number written in decimal.
    pub fn to_string(&self) -> (s: String)
        ensures
            s@ == decimal(self.spec_value() as nat),
    {
        let v = self.value();
        format_decimal(v as u32)
    }

    /// The variant named `s`; any other text is refused with an error that
    /// carries it.
    pub fn from_str(s: &str) -> (r: Result<SocketTypeActionType, ParseEnumError>)
        ensures
            r matches Ok(v) ==> v.spec_name() == s@,
            r matches Err(e) ==> e.input@ == s@ && e.target@ == "SocketTypeActionType"@ && (forall|v: SocketTypeActionType| v.spec_name() != s@),
            forall|v: SocketTypeActionType| #[trigger] v.spec_name() == s@ ==> r == Ok::<SocketTypeActionType, ParseEnumError>(v),
    {
        let r = if str_eq(s, "InsertPlug") {
            Ok(SocketTypeActionType::InsertPlug)
        } else if str_eq(s, "InfuseItem") {
            Ok(SocketTypeActionType::InfuseItem)
        } else if str_eq(s, "ReinitializeSocket") {
            Ok(SocketTypeActionType::ReinitializeSocket)
        } else {
            Err(ParseEnumError::new(s, "SocketTypeActionType"))
        };
        proof {
            assert forall|v: SocketTypeActionType| #[trigger] v.spec_name() == s@ implies r == Ok::<SocketTypeActionType, ParseEnumError>(v) by {
                if let Ok(w) = r {
                    SocketTypeActionType::lemma_names_distinct(v, w);
                }
            }
        }
        r
    }

    /// Distinct variants have distinct names.
    pub proof fn lemma_names_distinct(a: SocketTypeActionType, b: SocketTypeActionType)
        ensures
            a.spec_name() == b.spec_name() ==> a == b,
    {
        reveal_strlit("InsertPlug");
        assert("InsertPlug"@.len() == 10);
        reveal_strlit("InfuseItem");
        assert("InfuseItem"@.len() == 10);
        reveal_strlit("ReinitializeSocket");
        assert("ReinitializeSocket"@.len() == 18);
        assert("InsertPlug"@[2] != "InfuseItem"@[2]);
    }

    /// Distinct variants have distinct numbers.
    pub proof fn lemma_values_distinct(a: SocketTypeActionType, b: SocketTypeActionType)
        ensures
            a.spec_value() == b.spec_value() ==> a == b,
    {
    }
}

impl core::str::FromStr for SocketTypeActionType {
    type Err = ParseEnumError;

    fn from_str(s: &str) -> (r: Result<SocketTypeActionType, ParseEnumError>)
        ensures
            r matches Ok(v) ==> v.spec_name() == s@,
            r matches Err(e) ==> e.input@ == s@ && e.target@ == "SocketTypeActionType"@ && (forall|v: SocketTypeActionType| v.spec_name() != s@),
            forall|v: SocketTypeActionType| #[trigger] v.spec_name() == s@ ==> r == Ok::<SocketTypeActionType, ParseEnumError>(v),
    {
        SocketTypeActionType::from_str(s)
    }
}

/// The number that stands for a variant on the wire is `value()`; an `as`
/// cast gives the variant's position in the list instead.
#[derive(Clone, Copy, Debug, PartialEq, Eq, Hash, Structural)]
pub enum DestinySocketVisibility {
    Visible,
    Hidden,
    HiddenWhenEmpty,
    HiddenIfNoPlugsAvailable,
}

impl DestinySocketVisibility {
    /// The name of the variant, the text that `from_str` reads.
    pub open spec fn spec_name(self) -> Seq<char> {
        match self {
            DestinySocketVisibility::Visible => "Visible"@,
            DestinySocketVisibility::Hidden => "Hidden"@,
            DestinySocketVisibility::HiddenWhenEmpty => "HiddenWhenEmpty"@,
            DestinySocketVisibility::HiddenIfNoPlugsAvailable => "HiddenIfNoPlugsAvailable"@,
        }
    }

    /// The number that stands for the variant on the wire.
    pub open spec fn spec_value(self) -> i32 {
        match self {
            DestinySocketVisibility::Visible => 0,
            DestinySocketVisibility::Hidden => 1,
            DestinySocketVisibility::HiddenWhenEmpty => 2,
            DestinySocketVisibility::HiddenIfNoPlugsAvailable => 3,
        }
    }

    /// The number that stands for the variant on the wire.
    pub fn value(&self) -> (v: i32)
        ensures
            v == self.spec_value(),
    {
        match self {
            DestinySocketVisibility::Visible => 0,
            DestinySocketVisibility::Hidden => 1,
            DestinySocketVisibility::HiddenWhenEmpty => 2,
            DestinySocketVisibility::HiddenIfNoPlugsAvailable => 3,
        }
    }

    /// The variant's number written in decimal.
    pub fn to_string(&self) -> (s: String)
        ensures
            s@ == decimal(self.spec_value() as nat),
    {
        let v = self.value();
        format_decimal(v as u32)
    }

    /// The variant named `s`; any other text is refused with an error that
    /// carries it.
    pub fn from_str(s: &str) -> (r: Result<DestinySocketVisibility, ParseEnumError>)
        ensures
            r matches Ok(v) ==> v.spec_name() == s@,
            r matches Err(e) ==> e.input@ == s@ && e.target@ == "DestinySocketVisibility"@ && (forall|v: DestinySocketVisibility| v.spec_name() != s@),
            forall|v: DestinySocketVisibility| #[trigger] v.spec_name() == s@ ==> r == Ok::<DestinySocketVisibility, ParseEnumError>(v),
    {
        let r = if str_eq(s, "Visible") {
            Ok(DestinySocketVisibility::Visible)
        } else if str_eq(s, "Hidden") {
            Ok(DestinySocketVisibility::Hidden)
        } else if str_eq(s, "HiddenWhenEmpty") {
            Ok(DestinySocketVisibility::HiddenWhenEmpty)
        } else if str_eq(s, "HiddenIfNoPlugsAvailable") {
            Ok(DestinySocketVisibility::HiddenIfNoPlugsAvailable)
        } else {
            Err(ParseEnumError::new(s, "DestinySocketVisibility"))
        };
        proof {
            assert forall|v: DestinySocketVisibility| #[trigger] v.spec_name() == s@ implies r == Ok::<DestinySocketVisibility, ParseEnumError>(v) by {
                if let Ok(w) = r {
                    DestinySocketVisibility::lemma_names_distinct(v, w);
                }
            }
        }
        r
    }

    /// Distinct variants have distinct names.
    pub proof fn lemma_names_distinct(a: DestinySocketVisibility, b: DestinySocketVisibility)
        ensures
            a.spec_name() == b.spec_name() ==> a == b,
    {
        reveal_strlit("Visible");
        assert("Visible"@.len() == 7);
        reveal_strlit("Hidden");
        assert("Hidden"@.len() == 6);
        reveal_strlit("HiddenWhenEmpty");
        assert("HiddenWhenEmpty"@.len() == 15);
        reveal_strlit("HiddenIfNoPlugsAvailable");
        assert("HiddenIfNoPlugsAvailable"@.len() == 24);
    }

    /// Distinct variants have distinct numbers.
    pub proof fn lemma_values_distinct(a: DestinySocketVisibility, b: DestinySocketVisibility)
        ensures
            a.spec_value() == b.spec_value() ==> a == b,
    {
    }
}

impl core::str::FromStr for DestinySocketVisibility {
    type Err = ParseEnumError;

    fn from_str(s: &str) -> (r: Result<DestinySocketVisibility, ParseEnumError>)
        ensures
            r matches Ok(v) ==> v.spec_name() == s@,
            r matches Err(e) ==> e.input@ == s@ && e.target@ == "DestinySocketVisibility"@ && (forall|v: DestinySocketVisibility| v.spec_name() != s@),
            forall|v: DestinySocketVisibility| #[trigger] v.spec_name() == s@ ==> r == Ok::<DestinySocketVisibility, ParseEnumError>(v),
    {
        DestinySocketVisibility::from_str(s)
    }
}

/// Represents the possible and known UI styles used by the game for rendering Socket Categories.
///
/// The number that stands for a variant on the wire is `value()`; an `as`
/// cast gives the variant's position in the list instead.
#[derive(Clone, Copy, Debug, PartialEq, Eq, Hash, Structural)]
pub enum DestinySocketCategoryStyle {
    Unknown,
    Reusable,
    Consumable,
    Unlockable,
    Intrinsic,
    EnergyMeter,
    LargePerk,
    Abilities,
    Supers,
}

impl DestinySocketCategoryStyle {
    /// The name of the variant, the text that `from_str` reads.
    pub open spec fn spec_name(self) -> Seq<char> {
        match self {
            DestinySocketCategoryStyle::Unknown => "Unknown"@,
            DestinySocketCategoryStyle::Reusable => "Reusable"@,
            DestinySocketCategoryStyle::Consumable => "Consumable"@,
            DestinySocketCategoryStyle::Unlockable => "Unlockable"@,
            DestinySocketCategoryStyle::Intrinsic => "Intrinsic"@,
            DestinySocketCategoryStyle::EnergyMeter => "EnergyMeter"@,
            DestinySocketCategoryStyle::LargePerk => "LargePerk"@,
            DestinySocketCategoryStyle::Abilities => "Abilities"@,
            DestinySocketCategoryStyle::Supers => "Supers"@,
        }
    }

    /// The number that stands for the variant on the wire.
    pub open spec fn spec_value(self) -> i32 {
        match self {
            DestinySocketCategoryStyle::Unknown => 0,
            DestinySocketCategoryStyle::Reusable => 1,
            DestinySocketCategoryStyle::Consumable => 2,
            DestinySocketCategoryStyle::Unlockable => 3,
            DestinySocketCategoryStyle::Intrinsic => 4,
            DestinySocketCategoryStyle::EnergyMeter => 5,
            DestinySocketCategoryStyle::LargePerk => 6,
            DestinySocketCategoryStyle::Abilities => 7,
            DestinySocketCategoryStyle::Supers => 8,
        }
    }

    /// The number that stands for the variant on the wire.
    pub fn value(&self) -> (v: i32)
        ensures
            v == self.spec_value(),
    {
        match self {
            DestinySocketCategoryStyle::Unknown => 0,
            DestinySocketCategoryStyle::Reusable => 1,
            DestinySocketCategoryStyle::Consumable => 2,
            DestinySocketCategoryStyle::Unlockable => 3,
            DestinySocketCategoryStyle::Intrinsic => 4,
            DestinySocketCategoryStyle::EnergyMeter => 5,
            DestinySocketCategoryStyle::LargePerk => 6,
            DestinySocketCategoryStyle::Abilities => 7,
            DestinySocketCategoryStyle::Supers => 8,
        }
    }

    /// The variant's number written in decimal.
    pub fn to_string(&self) -> (s: String)
        ensures
            s@ == decimal(self.spec_value() as nat),
    {
        let v = self.value();
        format_decimal(v as u32)
    }

    /// The variant named `s`; any other text is refused with an error that
    /// carries it.
    pub fn from_str(s: &str) -> (r: Result<DestinySocketCategoryStyle, ParseEnumError>)
        ensures
            r matches Ok(v) ==> v.spec_name() == s@,
            r matches Err(e) ==> e.input@ == s@ && e.target@ == "DestinySocketCategoryStyle"@ && (forall|v: DestinySocketCategoryStyle| v.spec_name() != s@),
            forall|v: DestinySocketCategoryStyle| #[trigger] v.spec_name() == s@ ==> r == Ok::<DestinySocketCategoryStyle, ParseEnumError>(v),
    {
        let r = if str_eq(s, "Unknown") {
            Ok(DestinySocketCategoryStyle::Unknown)
        } else if str_eq(s, "Reusable") {
            Ok(DestinySocketCategoryStyle::Reusable)
        } else if str_eq(s, "Consumable") {
            Ok(DestinySocketCategoryStyle::Consumable)
        } else if str_eq(s, "Unlockable") {
            Ok(DestinySocketCategoryStyle::Unlockable)
        } else if str_eq(s, "Intrinsic") {
            Ok(DestinySocketCategoryStyle::Intrinsic)
        } else if str_eq(s, "EnergyMeter") {
            Ok(DestinySocketCategoryStyle::EnergyMeter)
        } else if str_eq(s, "LargePerk") {
            Ok(DestinySocketCategoryStyle::LargePerk)
        } else if str_eq(s, "Abilities") {
            Ok(DestinySocketCategoryStyle::Abilities)
        } else if str_eq(s, "Supers") {
            Ok(DestinySocketCategoryStyle::Supers)
        } else {
            Err(ParseEnumError::new(s, "DestinySocketCategoryStyle"))
        };
        proof {
            assert forall|v: DestinySocketCategoryStyle| #[trigger] v.spec_name() == s@ implies r == Ok::<DestinySocketCategoryStyle, ParseEnumError>(v) by {
                if let Ok(w) = r {
                    DestinySocketCategoryStyle::lemma_names_distinct(v, w);
                }
            }
        }
        r
    }

    /// Distinct variants have distinct names.
    pub proof fn lemma_names_distinct(a: DestinySocketCategoryStyle, b: DestinySocketCategoryStyle)
        ensures
            a.spec_name() == b.spec_name() ==> a == b,
    {
        reveal_strlit("Unknown");
        assert("Unknown"@.len() == 7);
        reveal_strlit("Reusable");
        assert("Reusable"@.len() == 8);
        reveal_strlit("Consumable");
        assert("Consumable"@.len() == 10);
        reveal_strlit("Unlockable");
        assert("Unlockable"@.len() == 10);
        reveal_strlit("Intrinsic");
        assert("Intrinsic"@.len() == 9);
        reveal_strlit("EnergyMeter");
        assert("EnergyMeter"@.len() == 11);
        reveal_strlit("LargePerk");
        assert("LargePerk"@.len() == 9);
        reveal_strlit("Abilities");
        assert("Abilities"@.len() == 9);
        reveal_strlit("Supers");
        assert("Supers"@.len() == 6);
        assert("Consumable"@[0] != "Unlockable"@[0]);
        assert("Intrinsic"@[0] != "LargePerk"@[0]);
        assert("Intrinsic"@[0] != "Abilities"@[0]);
        assert("LargePerk"@[0] != "Abilities"@[0]);
    }

    /// Distinct variants have distinct numbers.
    pub proof fn lemma_values_distinct(a: DestinySocketCategoryStyle, b: DestinySocketCategoryStyle)
        ensures
            a.spec_value() == b.spec_value() ==> a == b,
    {
    }
}

impl core::str::FromStr for DestinySocketCategoryStyle {
    type Err = ParseEnumError;

    fn from_str(s: &str) -> (r: Result<DestinySocketCategoryStyle, ParseEnumError>)
        ensures
            r matches Ok(v) ==> v.spec_name() == s@,
            r matches Err(e) ==> e.input@ == s@ && e.target@ == "DestinySocketCategoryStyle"@ && (forall|v: DestinySocketCategoryStyle| v.spec_name() != s@),
            forall|v: DestinySocketCategoryStyle| #[trigger] v.spec_name() == s@ ==> r == Ok::<DestinySocketCategoryStyle, ParseEnumError>(v),
    {
        DestinySocketCategoryStyle::from_str(s)
    }
}

/// If the plug has a specific custom style, this enumeration will represent that style/those styles.
///
/// The number that stands for a variant on the wire is `value()`; an `as`
/// cast gives the variant's position in the list instead.
///
/// Each variant is one flag: its number has exactly one bit set.
#[derive(Clone, Copy, Debug, PartialEq, Eq, Hash, Structural)]
pub enum PlugUiStyles {
    Masterwork,
}

impl PlugUiStyles {
    /// The name of the variant, the text that `from_str` reads.
    pub open spec fn spec_name(self) -> Seq<char> {
        match self {
            PlugUiStyles::Masterwork => "Masterwork"@,
        }
    }

    /// The number that stands for the variant on the wire.
    pub open spec fn spec_value(self) -> u32 {
        match self {
            PlugUiStyles::Masterwork => 1,
        }
    }

    /// The number that stands for the variant on the wire.
    pub fn value(&self) -> (v: u32)
        ensures
            v == self.spec_value(),
    {
        match self {
            PlugUiStyles::Masterwork => 1,
        }
    }

    /// The variant's number written in decimal.
    pub fn to_string(&self) -> (s: String)
        ensures
            s@ == decimal(self.spec_value() as nat),
    {
        format_decimal(self.value())
    }

    /// The variant named `s`; any other text is refused with an error that
    /// carries it.
    pub fn from_str(s: &str) -> (r: Result<PlugUiStyles, ParseEnumError>)
        ensures
            r matches Ok(v) ==> v.spec_name() == s@,
            r matches Err(e) ==> e.input@ == s@ && e.target@ == "PlugUiStyles"@ && (forall|v: PlugUiStyles| v.spec_name() != s@),
            forall|v: PlugUiStyles| #[trigger] v.spec_name() == s@ ==> r == Ok::<PlugUiStyles, ParseEnumError>(v),
    {
        let r = if str_eq(s, "Masterwork") {
            Ok(PlugUiStyles::Masterwork)
        } else {
            Err(ParseEnumError::new(s, "PlugUiStyles"))
        };
        proof {
            assert forall|v: PlugUiStyles| #[trigger] v.spec_name() == s@ implies r == Ok::<PlugUiStyles, ParseEnumError>(v) by {
                if let Ok(w) = r {
                    PlugUiStyles::lemma_names_distinct(v, w);
                }
            }
        }
        r
    }

    /// Distinct variants have distinct names.
    pub proof fn lemma_names_distinct(a: PlugUiStyles, b: PlugUiStyles)
        ensures
            a.spec_name() == b.spec_name() ==> a == b,
    {
        reveal_strlit("Masterwork");
        assert("Masterwork"@.len() == 10);
    }

    /// Distinct variants have distinct numbers.
    pub proof fn lemma_values_distinct(a: PlugUiStyles, b: PlugUiStyles)
        ensures
            a.spec_value() == b.spec_value() ==> a == b,
    {
    }

    /// The number of every variant has exactly one bit set.
    pub proof fn lemma_single_bit(v: PlugUiStyles)
        ensures
            is_single_bit(v.spec_value()),
    {
        assert(is_single_bit(1u32)) by (bit_vector);
    }

    /// Distinct variants share no bit of their numbers.
    pub proof fn lemma_flags_disjoint(a: PlugUiStyles, b: PlugUiStyles)
        ensures
            a != b ==> a.spec_value() & b.spec_value() == 0,
    {
        if a != b {
            PlugUiStyles::lemma_single_bit(a);
            PlugUiStyles::lemma_single_bit(b);
            PlugUiStyles::lemma_values_distinct(a, b);
            lemma_single_bits_disjoint(a.spec_value(), b.spec_value());
        }
    }
}

impl core::str::FromStr for PlugUiStyles {
    type Err = ParseEnumError;

    fn from_str(s: &str) -> (r: Result<PlugUiStyles, ParseEnumError>)
        ensures
            r matches Ok(v) ==> v.spec_name() == s@,
            r matches Err(e) ==> e.input@ == s@ && e.target@ == "PlugUiStyles"@ && (forall|v: PlugUiStyles| v.spec_name() != s@),
            forall|v: PlugUiStyles| #[trigger] v.spec_name() == s@ ==> r == Ok::<PlugUiStyles, ParseEnumError>(v),
    {
        PlugUiStyles::from_str(s)
    }
}

/// This enum determines whether the plug is available to be inserted.
/// - Normal means that all existing rules for plug insertion apply.
/// - UnavailableIfSocketContainsMatchingPlugCategory means that the plug is only available if the socket does NOT match the plug category.
/// - AvailableIfSocketContainsMatchingPlugCategory means that the plug is only available if the socket DOES match the plug category.
/// For category matching, use the plug's "plugCategoryIdentifier" property, comparing it to
///
/// The number that stands for a variant on the wire is `value()`; an `as`
/// cast gives the variant's position in the list instead.
#[derive(Clone, Copy, Debug, PartialEq, Eq, Hash, Structural)]
pub enum PlugAvailabilityMode {
    Normal,
    UnavailableIfSocketContainsMatchingPlugCategory,
    AvailableIfSocketContainsMatchingPlugCategory,
}

impl PlugAvailabilityMode {
    /// The name of the variant, the text that `from_str` reads.
    pub open spec fn spec_name(self) -> Seq<char> {
        match self {
            PlugAvailabilityMode::Normal => "Normal"@,
            PlugAvailabilityMode::UnavailableIfSocketContainsMatchingPlugCategory => "UnavailableIfSocketContainsMatchingPlugCategory"@,
            PlugAvailabilityMode::AvailableIfSocketContainsMatchingPlugCategory => "AvailableIfSocketContainsMatchingPlugCategory"@,
        }
    }

    /// The number that stands for the variant on the wire.
    pub open spec fn spec_value(self) -> i32 {
        match self {
            PlugAvailabilityMode::Normal => 0,
            PlugAvailabilityMode::UnavailableIfSocketContainsMatchingPlugCategory => 1,
            PlugAvailabilityMode::AvailableIfSocketContainsMatchingPlugCategory => 2,
        }
    }

    /// The number that stands for the variant on the wire.
    pub fn value(&self) -> (v: i32)
        ensures
            v == self.spec_value(),
    {
        match self {
            PlugAvailabilityMode::Normal => 0,
            PlugAvailabilityMode::UnavailableIfSocketContainsMatchingPlugCategory => 1,
            PlugAvailabilityMode::AvailableIfSocketContainsMatchingPlugCategory => 2,
        }
    }

    /// The variant's number written in decimal.
    pub fn to_string(&self) -> (s: String)
        ensures
            s@ == decimal(self.spec_value() as nat),
    {
        let v = self.value();
        format_decimal(v as u32)
    }

    /// The variant named `s`; any other text is refused with an error that
    /// carries it.
    pub fn from_str(s: &str) -> (r: Result<PlugAvailabilityMode, ParseEnumError>)
        ensures
            r matches Ok(v) ==> v.spec_name() == s@,
            r matches Err(e) ==> e.input@ == s@ && e.target@ == "PlugAvailabilityMode"@ && (forall|v: PlugAvailabilityMode| v.spec_name() != s@),
            forall|v: PlugAvailabilityMode| #[trigger] v.spec_name() == s@ ==> r == Ok::<PlugAvailabilityMode, ParseEnumError>(v),
    {
        let r = if str_eq(s, "Normal") {
            Ok(PlugAvailabilityMode::Normal)
        } else if str_eq(s, "UnavailableIfSocketContainsMatchingPlugCategory") {
            Ok(PlugAvailabilityMode::UnavailableIfSocketContainsMatchingPlugCategory)
        } else if str_eq(s, "AvailableIfSocketContainsMatchingPlugCategory") {
            Ok(PlugAvailabilityMode::AvailableIfSocketContainsMatchingPlugCategory)
        } else {
            Err(ParseEnumError::new(s, "PlugAvailabilityMode"))
        };
        proof {
            assert forall|v: PlugAvailabilityMode| #[trigger] v.spec_name() == s@ implies r == Ok::<PlugAvailabilityMode, ParseEnumError>(v) by {
                if let Ok(w) = r {
                    PlugAvailabilityMode::lemma_names_distinct(v, w);
                }
            }
        }
        r
    }

    /// Distinct variants have distinct names.
    pub proof fn lemma_names_distinct(a: PlugAvailabilityMode, b: PlugAvailabilityMode)
        ensures
            a.spec_name() == b.spec_name() ==> a == b,
    {
        reveal_strlit("Normal");
        assert("Normal"@.len() == 6);
        reveal_strlit("UnavailableIfSocketContainsMatchingPlugCategory");
        assert("UnavailableIfSocketContainsMatchingPlugCategory"@.len() == 47);
        reveal_strlit("AvailableIfSocketContainsMatchingPlugCategory");
        assert("AvailableIfSocketContainsMatchingPlugCategory"@.len() == 45);
    }

    /// Distinct variants have distinct numbers.
    pub proof fn lemma_values_distinct(a: PlugAvailabilityMode, b: PlugAvailabilityMode)
        ensures
            a.spec_value() == b.spec_value() ==> a == b,
    {
    }
}

impl core::str::FromStr for PlugAvailabilityMode {
    type Err = ParseEnumError;

    fn from_str(s: &str) -> (r: Result<PlugAvailabilityMode, ParseEnumError>)
        ensures
            r matches Ok(v) ==> v.spec_name() == s@,
            r matches Err(e) ==> e.input@ == s@ && e.target@ == "PlugAvailabilityMode"@ && (forall|v: PlugAvailabilityMode| v.spec_name() != s@),
            forall|v: PlugAvailabilityMode| #[trigger] v.spec_name() == s@ ==> r == Ok::<PlugAvailabilityMode, ParseEnumError>(v),
    {
        PlugAvailabilityMode::from_str(s)
    }
}

/// Indicates how a socket is populated, and where you should look for valid plug data.
/// This is a flags enumeration/bitmask field, as you may have to look in multiple sources across multiple components for valid plugs.
/// For instance, a socket could have plugs that are sourced from its own definition, as well as plugs that are sourced from Character-scoped AND profile-scoped Plug Sets. Only by combining plug data for every indicated source will you be able to know all of the plugs available for a socket.
///
/// The number that stands for a variant on the wire is `value()`; an `as`
/// cast gives the variant's position in the list instead.
///
/// Each variant is one flag: its number has exactly one bit set.
#[derive(Clone, Copy, Debug, PartialEq, Eq, Hash, Structural)]
pub enum SocketPlugSources {
    /// Use plugs found in the player's inventory, based on the socket type rules (see DestinySocketTypeDefinition for more info)
    /// Note that a socket - like Shaders - can have *both* reusable plugs and inventory items inserted theoretically.
    InventorySourced,
    /// Use the DestinyItemSocketsComponent.sockets.reusablePlugs property to determine which plugs are valid for this socket. This may have to be combined with other sources, such as plug sets, if those flags are set.
    /// Note that "Reusable" plugs may not necessarily come from a plug set, nor from the "reusablePlugItems" in the socket's Definition data. They can sometimes be "randomized" in which case the only source of truth at the moment is still the runtime DestinyItemSocketsComponent.sockets.reusablePlugs property.
    ReusablePlugItems,
    /// Use the ProfilePlugSets (DestinyProfileResponse.profilePlugSets) component data to determine which plugs are valid for this socket.
    ProfilePlugSet,
    /// Use the CharacterPlugSets (DestinyProfileResponse.characterPlugSets) component data to determine which plugs are valid for this socket.
    CharacterPlugSet,
}

impl SocketPlugSources {
    /// The name of the variant, the text that `from_str` reads.
    pub open spec fn spec_name(self) -> Seq<char> {
        match self {
            SocketPlugSources::InventorySourced => "InventorySourced"@,
            SocketPlugSources::ReusablePlugItems => "ReusablePlugItems"@,
            SocketPlugSources::ProfilePlugSet => "ProfilePlugSet"@,
            SocketPlugSources::CharacterPlugSet => "CharacterPlugSet"@,
        }
    }

    /// The number that stands for the variant on the wire.
    pub open spec fn spec_value(self) -> u32 {
        match self {
            SocketPlugSources::InventorySourced => 1,
            SocketPlugSources::ReusablePlugItems => 2,
            SocketPlugSources::ProfilePlugSet => 4,
            SocketPlugSources::CharacterPlugSet => 8,
        }
    }

    /// The number that stands for the variant on the wire.
    pub fn value(&self) -> (v: u32)
        ensures
            v == self.spec_value(),
    {
        match self {
            SocketPlugSources::InventorySourced => 1,
            SocketPlugSources::ReusablePlugItems => 2,
            SocketPlugSources::ProfilePlugSet => 4,
            SocketPlugSources::CharacterPlugSet => 8,
        }
    }

    /// The variant's number written in decimal.
    pub fn to_string(&self) -> (s: String)
        ensures
            s@ == decimal(self.spec_value() as nat),
    {
        format_decimal(self.value())
    }

    /// The variant named `s`; any other text is refused with an error that
    /// carries it.
    pub fn from_str(s: &str) -> (r: Result<SocketPlugSources, ParseEnumError>)
        ensures
            r matches Ok(v) ==> v.spec_name() == s@,
            r matches Err(e) ==> e.input@ == s@ && e.target@ == "SocketPlugSources"@ && (forall|v: SocketPlugSources| v.spec_name() != s@),
            forall|v: SocketPlugSources| #[trigger] v.spec_name() == s@ ==> r == Ok::<SocketPlugSources, ParseEnumError>(v),
    {
        let r = if str_eq(s, "InventorySourced") {
            Ok(SocketPlugSources::InventorySourced)
        } else if str_eq(s, "ReusablePlugItems") {
            Ok(SocketPlugSources::ReusablePlugItems)
        } else if str_eq(s, "ProfilePlugSet") {
            Ok(SocketPlugSources::ProfilePlugSet)
        } else if str_eq(s, "CharacterPlugSet") {
            Ok(SocketPlugSources::CharacterPlugSet)
        } else {
            Err(ParseEnumError::new(s, "SocketPlugSources"))
        };
        proof {
            assert forall|v: SocketPlugSources| #[trigger] v.spec_name() == s@ implies r == Ok::<SocketPlugSources, ParseEnumError>(v) by {
                if let Ok(w) = r {
                    SocketPlugSources::lemma_names_distinct(v, w);
                }
            }
        }
        r
    }

    /// Distinct variants have distinct names.
    pub proof fn lemma_names_distinct(a: SocketPlugSources, b: SocketPlugSources)
        ensures
            a.spec_name() == b.spec_name() ==> a == b,
    {
        reveal_strlit("InventorySourced");
        assert("InventorySourced"@.len() == 16);
        reveal_strlit("ReusablePlugItems");
        assert("ReusablePlugItems"@.len() == 17);
        reveal_strlit("ProfilePlugSet");
        assert("ProfilePlugSet"@.len() == 14);
        reveal_strlit("CharacterPlugSet");
        assert("CharacterPlugSet"@.len() == 16);
        assert("InventorySourced"@[0] != "CharacterPlugSet"@[0]);
    }

    /// Distinct variants have distinct numbers.
    pub proof fn lemma_values_distinct(a: SocketPlugSources, b: SocketPlugSources)
        ensures
            a.spec_value() == b.spec_value() ==> a == b,
    {
    }

    /// The number of every variant has exactly one bit set.
    pub proof fn lemma_single_bit(v: SocketPlugSources)
        ensures
            is_single_bit(v.spec_value()),
    {
        assert(is_single_bit(1u32) && is_single_bit(2u32) && is_single_bit(4u32) && is_single_bit(8u32)) by (bit_vector);
    }

    /// Distinct variants share no bit of their numbers.
    pub proof fn lemma_flags_disjoint(a: SocketPlugSources, b: SocketPlugSources)
        ensures
            a != b ==> a.spec_value() & b.spec_value() == 0,
    {
        if a != b {
            SocketPlugSources::lemma_single_bit(a);
            SocketPlugSources::lemma_single_bit(b);
            SocketPlugSources::lemma_values_distinct(a, b);
            lemma_single_bits_disjoint(a.spec_value(), b.spec_value());
        }
    }
}

impl core::str::FromStr for SocketPlugSources {
    type Err = ParseEnumError;

    fn from_str(s: &str) -> (r: Result<SocketPlugSources, ParseEnumError>)
        ensures
            r matches Ok(v) ==> v.spec_name() == s@,
            r matches Err(e) ==> e.input@ == s@ && e.target@ == "SocketPlugSources"@ && (forall|v: SocketPlugSources| v.spec_name() != s@),
            forall|v: SocketPlugSources| #[trigger] v.spec_name() == s@ ==> r == Ok::<SocketPlugSources, ParseEnumError>(v),
    {
        SocketPlugSources::from_str(s)
    }
}

} // verus!
