//! Vendors, their items and how they are shown.
use vstd::prelude::*;
use crate::error::ParseEnumError;
use crate::text::{decimal, format_decimal, str_eq};
use crate::flags::{is_single_bit, lemma_single_bits_disjoint};

verus! {

/// Describes the type of progression that a vendor has.
///
/// The number that stands for a variant on the wire is `value()`; an `as`
/// cast gives the variant's position in the list instead.
#[derive(Clone, Copy, Debug, PartialEq, Eq, Hash, Structural)]
pub enum DestinyVendorProgressionType {
    /// The original rank progression from token redemption.
    Default,
    /// Progression from ranks in ritual content. For example: Crucible (Shaxx), Gambit (Drifter), and Season 13 Battlegrounds (War Table).
    Ritual,
    /// A vendor progression with no seasonal refresh. For example: Xur in the Eternity destination for the 30th Anniversary.
    NoSeasonalRefresh,
}

impl DestinyVendorProgressionType {
    /// The name of the variant, the text that `from_str` reads.
    pub open spec fn spec_name(self) -> Seq<char> {
        match self {
            DestinyVendorProgressionType::Default => "Default"@,
            DestinyVendorProgressionType::Ritual => "Ritual"@,
            DestinyVendorProgressionType::NoSeasonalRefresh => "NoSeasonalRefresh"@,
        }
    }

    /// The number that stands for the variant on the wire.
    pub open spec fn spec_value(self) -> i32 {
        match self {
            DestinyVendorProgressionType::Default => 0,
            DestinyVendorProgressionType::Ritual => 1,
            DestinyVendorProgressionType::NoSeasonalRefresh => 2,
        }
    }

    /// The number that stands for the variant on the wire.
    pub fn value(&self) -> (v: i32)
        ensures
            v == self.spec_value(),
    {
        match self {
            DestinyVendorProgressionType::Default => 0,
            DestinyVendorProgressionType::Ritual => 1,
            DestinyVendorProgressionType::NoSeasonalRefresh => 2,
        }
    }

    /// The variant's number written in decimal.
    pub fn to_string(&self) -> (s: String)
        ensures
            s@ == decimal(self.spec_value() as nat),
    {
        let v = self.value();
        format_decimal(v as u32)
    }

    /// The variant named `s`; any other text is refused with an error that
    /// carries it.
    pub fn from_str(s: &str) -> (r: Result<DestinyVendorProgressionType, ParseEnumError>)
        ensures
            r matches Ok(v) ==> v.spec_name() == s@,
            r matches Err(e) ==> e.input@ == s@ && e.target@ == "DestinyVendorProgressionType"@ && (forall|v: DestinyVendorProgressionType| v.spec_name() != s@),
            forall|v: DestinyVendorProgressionType| #[trigger] v.spec_name() == s@ ==> r == Ok::<DestinyVendorProgressionType, ParseEnumError>(v),
    {
        let r = if str_eq(s, "Default") {
            Ok(DestinyVendorProgressionType::Default)
        } else if str_eq(s, "Ritual") {
            Ok(DestinyVendorProgressionType::Ritual)
        } else if str_eq(s, "NoSeasonalRefresh") {
            Ok(DestinyVendorProgressionType::NoSeasonalRefresh)
        } else {
            Err(ParseEnumError::new(s, "DestinyVendorProgressionType"))
        };
        proof {
            assert forall|v: DestinyVendorProgressionType| #[trigger] v.spec_name() == s@ implies r == Ok::<DestinyVendorProgressionType, ParseEnumError>(v) by {
                if let Ok(w) = r {
                    DestinyVendorProgressionType::lemma_names_distinct(v, w);
                }
            }
        }
        r
    }

    /// Distinct variants have distinct names.
    pub proof fn lemma_names_distinct(a: DestinyVendorProgressionType, b: DestinyVendorProgressionType)
        ensures
            a.spec_name() == b.spec_name() ==> a == b,
    {
        reveal_strlit("Default");
        assert("Default"@.len() == 7);
        reveal_strlit("Ritual");
        assert("Ritual"@.len() == 6);
        reveal_strlit("NoSeasonalRefresh");
        assert("NoSeasonalRefresh"@.len() == 17);
    }

    /// Distinct variants have distinct numbers.
    pub proof fn lemma_values_distinct(a: DestinyVendorProgressionType, b: DestinyVendorProgressionType)
        ensures
            a.spec_value() == b.spec_value() ==> a == b,
    {
    }
}

impl core::str::FromStr for DestinyVendorProgressionType {
    type Err = ParseEnumError;

    fn from_str(s: &str) -> (r: Result<DestinyVendorProgressionType, ParseEnumError>)
        ensures
            r matches Ok(v) ==> v.spec_name() == s@,
            r matches Err(e) ==> e.input@ == s@ && e.target@ == "DestinyVendorProgressionType"@ && (forall|v: DestinyVendorProgressionType| v.spec_name() != s@),
            forall|v: DestinyVendorProgressionType| #[trigger] v.spec_name() == s@ ==> r == Ok::<DestinyVendorProgressionType, ParseEnumError>(v),
    {
        DestinyVendorProgressionType::from_str(s)
    }
}

/// Display categories can have custom sort orders. These are the possible options.
///
/// The number that stands for a variant on the wire is `value()`; an `as`
/// cast gives the variant's position in the list instead.
#[derive(Clone, Copy, Debug, PartialEq, Eq, Hash, Structural)]
pub enum VendorDisplayCategorySortOrder {
    Default,
    SortByTier,
}

impl VendorDisplayCategorySortOrder {
    /// The name of the variant, the text that `from_str` reads.
    pub open spec fn spec_name(self) -> Seq<char> {
        match self {
            VendorDisplayCategorySortOrder::Default => "Default"@,
            VendorDisplayCategorySortOrder::SortByTier => "SortByTier"@,
        }
    }

    /// The number that stands for the variant on the wire.
    pub open spec fn spec_value(self) -> i32 {
        match self {
            VendorDisplayCategorySortOrder::Default => 0,
            VendorDisplayCategorySortOrder::SortByTier => 1,
        }
    }

    /// The number that stands for the variant on the wire.
    pub fn value(&self) -> (v: i32)
        ensures
            v == self.spec_value(),
    {
        match self {
            VendorDisplayCategorySortOrder::Default => 0,
            VendorDisplayCategorySortOrder::SortByTier => 1,
        }
    }

    /// The variant's number written in decimal.
    pub fn to_string(&self) -> (s: String)
        ensures
            s@ == decimal(self.spec_value() as nat),
    {
        let v = self.value();
        format_decimal(v as u32)
    }

    /// The variant named `s`; any other text is refused with an error that
    /// carries it.
    pub fn from_str(s: &str) -> (r: Result<VendorDisplayCategorySortOrder, ParseEnumError>)
        ensures
            r matches Ok(v) ==> v.spec_name() == s@,
            r matches Err(e) ==> e.input@ == s@ && e.target@ == "VendorDisplayCategorySortOrder"@ && (forall|v: VendorDisplayCategorySortOrder| v.spec_name() != s@),
            forall|v: VendorDisplayCategorySortOrder| #[trigger] v.spec_name() == s@ ==> r == Ok::<VendorDisplayCategorySortOrder, ParseEnumError>(v),
    {
        let r = if str_eq(s, "Default") {
            Ok(VendorDisplayCategorySortOrder::Default)
        } else if str_eq(s, "SortByTier") {
            Ok(VendorDisplayCategorySortOrder::SortByTier)
        } else {
            Err(ParseEnumError::new(s, "VendorDisplayCategorySortOrder"))
        };
        proof {
            assert forall|v: VendorDisplayCategorySortOrder| #[trigger] v.spec_name() == s@ implies r == Ok::<VendorDisplayCategorySortOrder, ParseEnumError>(v) by {
                if let Ok(w) = r {
                    VendorDisplayCategorySortOrder::lemma_names_distinct(v, w);
                }
            }
        }
        r
    }

    /// Distinct variants have distinct names.
    pub proof fn lemma_names_distinct(a: VendorDisplayCategorySortOrder, b: VendorDisplayCategorySortOrder)
        ensures
            a.spec_name() == b.spec_name() ==> a == b,
    {
        reveal_strlit("Default");
        assert("Default"@.len() == 7);
        reveal_strlit("SortByTier");
        assert("SortByTier"@.len() == 10);
    }

    /// Distinct variants have distinct numbers.
    pub proof fn lemma_values_distinct(a: VendorDisplayCategorySortOrder, b: VendorDisplayCategorySortOrder)
        ensures
            a.spec_value() == b.spec_value() ==> a == b,
    {
    }
}

impl core::str::FromStr for VendorDisplayCategorySortOrder {
    type Err = ParseEnumError;

    fn from_str(s: &str) -> (r: Result<VendorDisplayCategorySortOrder, ParseEnumError>)
        ensures
            r matches Ok(v) ==> v.spec_name() == s@,
            r matches Err(e) ==> e.input@ == s@ && e.target@ == "VendorDisplayCategorySortOrder"@ && (forall|v: VendorDisplayCategorySortOrder| v.spec_name() != s@),
            forall|v: VendorDisplayCategorySortOrder| #[trigger] v.spec_name() == s@ ==> r == Ok::<VendorDisplayCategorySortOrder, ParseEnumError>(v),
    {
        VendorDisplayCategorySortOrder::from_str(s)
    }
}

/// When a Vendor Interaction provides rewards, they'll either let you choose one or let you have all of them. This determines which it will be.
///
/// The number that stands for a variant on the wire is `value()`; an `as`
/// cast gives the variant's position in the list instead.
#[derive(Clone, Copy, Debug, PartialEq, Eq, Hash, Structural)]
pub enum DestinyVendorInteractionRewardSelection {
    /// The API calls this variant `None`; `from_str` reads that name.
    None_,
    One,
    All,
}

impl DestinyVendorInteractionRewardSelection {
    /// The name of the variant, the text that `from_str` reads.
    pub open spec fn spec_name(self) -> Seq<char> {
        match self {
            DestinyVendorInteractionRewardSelection::None_ => "None"@,
            DestinyVendorInteractionRewardSelection::One => "One"@,
            DestinyVendorInteractionRewardSelection::All => "All"@,
        }
    }

    /// The number that stands for the variant on the wire.
    pub open spec fn spec_value(self) -> i32 {
        match self {
            DestinyVendorInteractionRewardSelection::None_ => 0,
            DestinyVendorInteractionRewardSelection::One => 1,
            DestinyVendorInteractionRewardSelection::All => 2,
        }
    }

    /// The number that stands for the variant on the wire.
    pub fn value(&self) -> (v: i32)
        ensures
            v == self.spec_value(),
    {
        match self {
            DestinyVendorInteractionRewardSelection::None_ => 0,
            DestinyVendorInteractionRewardSelection::One => 1,
            DestinyVendorInteractionRewardSelection::All => 2,
        }
    }

    /// The variant's number written in decimal.
    pub fn to_string(&self) -> (s: String)
        ensures
            s@ == decimal(self.spec_value() as nat),
    {
        let v = self.value();
        format_decimal(v as u32)
    }

    /// The variant named `s`; any other text is refused with an error that
    /// carries it.
    pub fn from_str(s: &str) -> (r: Result<DestinyVendorInteractionRewardSelection, ParseEnumError>)
        ensures
            r matches Ok(v) ==> v.spec_name() == s@,
            r matches Err(e) ==> e.input@ == s@ && e.target@ == "DestinyVendorInteractionRewardSelection"@ && (forall|v: DestinyVendorInteractionRewardSelection| v.spec_name() != s@),
            forall|v: DestinyVendorInteractionRewardSelection| #[trigger] v.spec_name() == s@ ==> r == Ok::<DestinyVendorInteractionRewardSelection, ParseEnumError>(v),
    {
        let r = if str_eq(s, "None") {
            Ok(DestinyVendorInteractionRewardSelection::None_)
        } else if str_eq(s, "One") {
            Ok(DestinyVendorInteractionRewardSelection::One)
        } else if str_eq(s, "All") {
            Ok(DestinyVendorInteractionRewardSelection::All)
        } else {
            Err(ParseEnumError::new(s, "DestinyVendorInteractionRewardSelection"))
        };
        proof {
            assert forall|v: DestinyVendorInteractionRewardSelection| #[trigger] v.spec_name() == s@ implies r == Ok::<DestinyVendorInteractionRewardSelection, ParseEnumError>(v) by {
                if let Ok(w) = r {
                    DestinyVendorInteractionRewardSelection::lemma_names_distinct(v, w);
                }
            }
        }
        r
    }

    /// Distinct variants have distinct names.
    pub proof fn lemma_names_distinct(a: DestinyVendorInteractionRewardSelection, b: DestinyVendorInteractionRewardSelection)
        ensures
            a.spec_name() == b.spec_name() ==> a == b,
    {
        reveal_strlit("None");
        assert("None"@.len() == 4);
        reveal_strlit("One");
        assert("One"@.len() == 3);
        reveal_strlit("All");
        assert("All"@.len() == 3);
        assert("One"@[0] != "All"@[0]);
    }

    /// Distinct variants have distinct numbers.
    pub proof fn lemma_values_distinct(a: DestinyVendorInteractionRewardSelection, b: DestinyVendorInteractionRewardSelection)
        ensures
            a.spec_value() == b.spec_value() ==> a == b,
    {
    }
}

impl core::str::FromStr for DestinyVendorInteractionRewardSelection {
    type Err = ParseEnumError;

    fn from_str(s: &str) -> (r: Result<DestinyVendorInteractionRewardSelection, ParseEnumError>)
        ensures
            r matches Ok(v) ==> v.spec_name() == s@,
            r matches Err(e) ==> e.input@ == s@ && e.target@ == "DestinyVendorInteractionRewardSelection"@ && (forall|v: DestinyVendorInteractionRewardSelection| v.spec_name() != s@),
            forall|v: DestinyVendorInteractionRewardSelection| #[trigger] v.spec_name() == s@ ==> r == Ok::<DestinyVendorInteractionRewardSelection, ParseEnumError>(v),
    {
        DestinyVendorInteractionRewardSelection::from_str(s)
    }
}

/// This determines the type of reply that a Vendor will have during an Interaction.
///
/// The number that stands for a variant on the wire is `value()`; an `as`
/// cast gives the variant's position in the list instead.
#[derive(Clone, Copy, Debug, PartialEq, Eq, Hash, Structural)]
pub enum DestinyVendorReplyType {
    Accept,
    Decline,
    Complete,
}

impl DestinyVendorReplyType {
    /// The name of the variant, the text that `from_str` reads.
    pub open spec fn spec_name(self) -> Seq<char> {
        match self {
            DestinyVendorReplyType::Accept => "Accept"@,
            DestinyVendorReplyType::Decline => "Decline"@,
            DestinyVendorReplyType::Complete => "Complete"@,
        }
    }

    /// The number that stands for the variant on the wire.
    pub open spec fn spec_value(self) -> i32 {
        match self {
            DestinyVendorReplyType::Accept => 0,
            DestinyVendorReplyType::Decline => 1,
            DestinyVendorReplyType::Complete => 2,
        }
    }

    /// The number that stands for the variant on the wire.
    pub fn value(&self) -> (v: i32)
        ensures
            v == self.spec_value(),
    {
        match self {
            DestinyVendorReplyType::Accept => 0,
            DestinyVendorReplyType::Decline => 1,
            DestinyVendorReplyType::Complete => 2,
        }
    }

    /// The variant's number written in decimal.
    pub fn to_string(&self) -> (s: String)
        ensures
            s@ == decimal(self.spec_value() as nat),
    {
        let v = self.value();
        format_decimal(v as u32)
    }

    /// The variant named `s`; any other text is refused with an error that
    /// carries it.
    pub fn from_str(s: &str) -> (r: Result<DestinyVendorReplyType, ParseEnumError>)
        ensures
            r matches Ok(v) ==> v.spec_name() == s@,
            r matches Err(e) ==> e.input@ == s@ && e.target@ == "DestinyVendorReplyType"@ && (forall|v: DestinyVendorReplyType| v.spec_name() != s@),
            forall|v: DestinyVendorReplyType| #[trigger] v.spec_name() == s@ ==> r == Ok::<DestinyVendorReplyType, ParseEnumError>(v),
    {
        let r = if str_eq(s, "Accept") {
            Ok(DestinyVendorReplyType::Accept)
        } else if str_eq(s, "Decline") {
            Ok(DestinyVendorReplyType::Decline)
        } else if str_eq(s, "Complete") {
            Ok(DestinyVendorReplyType::Complete)
        } else {
            Err(ParseEnumError::new(s, "DestinyVendorReplyType"))
        };
        proof {
            assert forall|v: DestinyVendorReplyType| #[trigger] v.spec_name() == s@ implies r == Ok::<DestinyVendorReplyType, ParseEnumError>(v) by {
                if let Ok(w) = r {
                    DestinyVendorReplyType::lemma_names_distinct(v, w);
                }
            }
        }
        r
    }

    /// Distinct variants have distinct names.
    pub proof fn lemma_names_distinct(a: DestinyVendorReplyType, b: DestinyVendorReplyType)
        ensures
            a.spec_name() == b.spec_name() ==> a == b,
    {
        reveal_strlit("Accept");
        assert("Accept"@.len() == 6);
        reveal_strlit("Decline");
        assert("Decline"@.len() == 7);
        reveal_strlit("Complete");
        assert("Complete"@.len() == 8);
    }

    /// Distinct variants have distinct numbers.
    pub proof fn lemma_values_distinct(a: DestinyVendorReplyType, b: DestinyVendorReplyType)
        ensures
            a.spec_value() == b.spec_value() ==> a == b,
    {
    }
}

impl core::str::FromStr for DestinyVendorReplyType {
    type Err = ParseEnumError;

    fn from_str(s: &str) -> (r: Result<DestinyVendorReplyType, ParseEnumError>)
        ensures
            r matches Ok(v) ==> v.spec_name() == s@,
            r matches Err(e) ==> e.input@ == s@ && e.target@ == "DestinyVendorReplyType"@ && (forall|v: DestinyVendorReplyType| v.spec_name() != s@),
            forall|v: DestinyVendorReplyType| #[trigger] v.spec_name() == s@ ==> r == Ok::<DestinyVendorReplyType, ParseEnumError>(v),
    {
        DestinyVendorReplyType::from_str(s)
    }
}

/// An enumeration of the known UI interactions for Vendors.
///
/// The number that stands for a variant on the wire is `value()`; an `as`
/// cast gives the variant's position in the list instead.
#[derive(Clone, Copy, Debug, PartialEq, Eq, Hash, Structural)]
pub enum VendorInteractionType {
    Unknown,
    /// An empty interaction. If this ends up in content, it is probably a game bug.
    Undefined,
    /// An interaction shown when you complete a quest and receive a reward.
    QuestComplete,
    /// An interaction shown when you talk to a Vendor as an intermediary step of a quest.
    QuestContinue,
    /// An interaction shown when you are previewing the vendor's reputation rewards.
    ReputationPreview,
    /// An interaction shown when you rank up with the vendor.
    RankUpReward,
    /// An interaction shown when you have tokens to turn in for the vendor.
    TokenTurnIn,
    /// An interaction shown when you're accepting a new quest.
    QuestAccept,
    /// Honestly, this doesn't seem consistent to me. It is used to give you choices in the Cryptarch as well as some reward prompts by the Eververse vendor. I'll have to look into that further at some point.
    ProgressTab,
    /// These seem even less consistent. I don't know what these are.
    End,
    /// Also seem inconsistent. I also don't know what these are offhand.
    Start,
}

impl VendorInteractionType {
    /// The name of the variant, the text that `from_str` reads.
    pub open spec fn spec_name(self) -> Seq<char> {
        match self {
            VendorInteractionType::Unknown => "Unknown"@,
            VendorInteractionType::Undefined => "Undefined"@,
            VendorInteractionType::QuestComplete => "QuestComplete"@,
            VendorInteractionType::QuestContinue => "QuestContinue"@,
            VendorInteractionType::ReputationPreview => "ReputationPreview"@,
            VendorInteractionType::RankUpReward => "RankUpReward"@,
            VendorInteractionType::TokenTurnIn => "TokenTurnIn"@,
            VendorInteractionType::QuestAccept => "QuestAccept"@,
            VendorInteractionType::ProgressTab => "ProgressTab"@,
            VendorInteractionType::End => "End"@,
            VendorInteractionType::Start => "Start"@,
        }
    }

    /// The number that stands for the variant on the wire.
    pub open spec fn spec_value(self) -> i32 {
        match self {
            VendorInteractionType::Unknown => 0,
            VendorInteractionType::Undefined => 1,
            VendorInteractionType::QuestComplete => 2,
            VendorInteractionType::QuestContinue => 3,
            VendorInteractionType::ReputationPreview => 4,
            VendorInteractionType::RankUpReward => 5,
            VendorInteractionType::TokenTurnIn => 6,
            VendorInteractionType::QuestAccept => 7,
            VendorInteractionType::ProgressTab => 8,
            VendorInteractionType::End => 9,
            VendorInteractionType::Start => 10,
        }
    }

    /// The number that stands for the variant on the wire.
    pub fn value(&self) -> (v: i32)
        ensures
            v == self.spec_value(),
    {
        match self {
            VendorInteractionType::Unknown => 0,
            VendorInteractionType::Undefined => 1,
            VendorInteractionType::QuestComplete => 2,
            VendorInteractionType::QuestContinue => 3,
            VendorInteractionType::ReputationPreview => 4,
            VendorInteractionType::RankUpReward => 5,
            VendorInteractionType::TokenTurnIn => 6,
            VendorInteractionType::QuestAccept => 7,
            VendorInteractionType::ProgressTab => 8,
            VendorInteractionType::End => 9,
            VendorInteractionType::Start => 10,
        }
    }

    /// The variant's number written in decimal.
    pub fn to_string(&self) -> (s: String)
        ensures
            s@ == decimal(self.spec_value() as nat),
    {
        let v = self.value();
        format_decimal(v as u32)
    }

    /// The variant named `s`; any other text is refused with an error that
    /// carries it.
    pub fn from_str(s: &str) -> (r: Result<VendorInteractionType, ParseEnumError>)
        ensures
            r matches Ok(v) ==> v.spec_name() == s@,
            r matches Err(e) ==> e.input@ == s@ && e.target@ == "VendorInteractionType"@ && (forall|v: VendorInteractionType| v.spec_name() != s@),
            forall|v: VendorInteractionType| #[trigger] v.spec_name() == s@ ==> r == Ok::<VendorInteractionType, ParseEnumError>(v),
    {
        let r = if str_eq(s, "Unknown") {
            Ok(VendorInteractionType::Unknown)
        } else if str_eq(s, "Undefined") {
            Ok(VendorInteractionType::Undefined)
        } else if str_eq(s, "QuestComplete") {
            Ok(VendorInteractionType::QuestComplete)
        } else if str_eq(s, "QuestContinue") {
            Ok(VendorInteractionType::QuestContinue)
        } else if str_eq(s, "ReputationPreview") {
            Ok(VendorInteractionType::ReputationPreview)
        } else if str_eq(s, "RankUpReward") {
            Ok(VendorInteractionType::RankUpReward)
        } else if str_eq(s, "TokenTurnIn") {
            Ok(VendorInteractionType::TokenTurnIn)
        } else if str_eq(s, "QuestAccept") {
            Ok(VendorInteractionType::QuestAccept)
        } else if str_eq(s, "ProgressTab") {
            Ok(VendorInteractionType::ProgressTab)
        } else if str_eq(s, "End") {
            Ok(VendorInteractionType::End)
        } else if str_eq(s, "Start") {
            Ok(VendorInteractionType::Start)
        } else {
            Err(ParseEnumError::new(s, "VendorInteractionType"))
        };
        proof {
            assert forall|v: VendorInteractionType| #[trigger] v.spec_name() == s@ implies r == Ok::<VendorInteractionType, ParseEnumError>(v) by {
                if let Ok(w) = r {
                    VendorInteractionType::lemma_names_distinct(v, w);
                }
            }
        }
        r
    }

    /// Distinct variants have distinct names.
    pub proof fn lemma_names_distinct(a: VendorInteractionType, b: VendorInteractionType)
        ensures
            a.spec_name() == b.spec_name() ==> a == b,
    {
        reveal_strlit("Unknown");
        assert("Unknown"@.len() == 7);
        reveal_strlit("Undefined");
        assert("Undefined"@.len() == 9);
        reveal_strlit("QuestComplete");
        assert("QuestComplete"@.len() == 13);
        reveal_strlit("QuestContinue");
        assert("QuestContinue"@.len() == 13);
        reveal_strlit("ReputationPreview");
        assert("ReputationPreview"@.len() == 17);
        reveal_strlit("RankUpReward");
        assert("RankUpReward"@.len() == 12);
        reveal_strlit("TokenTurnIn");
        assert("TokenTurnIn"@.len() == 11);
        reveal_strlit("QuestAccept");
        assert("QuestAccept"@.len() == 11);
        reveal_strlit("ProgressTab");
        assert("ProgressTab"@.len() == 11);
        reveal_strlit("End");
        assert("End"@.len() == 3);
        reveal_strlit("Start");
        assert("Start"@.len() == 5);
        assert("QuestComplete"@[7] != "QuestContinue"@[7]);
        assert("TokenTurnIn"@[0] != "QuestAccept"@[0]);
        assert("TokenTurnIn"@[0] != "ProgressTab"@[0]);
        assert("QuestAccept"@[0] != "ProgressTab"@[0]);
    }

    /// Distinct variants have distinct numbers.
    pub proof fn lemma_values_distinct(a: VendorInteractionType, b: VendorInteractionType)
        ensures
            a.spec_value() == b.spec_value() ==> a == b,
    {
    }
}

impl core::str::FromStr for VendorInteractionType {
    type Err = ParseEnumError;

    fn from_str(s: &str) -> (r: Result<VendorInteractionType, ParseEnumError>)
        ensures
            r matches Ok(v) ==> v.spec_name() == s@,
            r matches Err(e) ==> e.input@ == s@ && e.target@ == "VendorInteractionType"@ && (forall|v: VendorInteractionType| v.spec_name() != s@),
            forall|v: VendorInteractionType| #[trigger] v.spec_name() == s@ ==> r == Ok::<VendorInteractionType, ParseEnumError>(v),
    {
        VendorInteractionType::from_str(s)
    }
}

/// The action that happens when the user attempts to refund an item.
///
/// The number that stands for a variant on the wire is `value()`; an `as`
/// cast gives the variant's position in the list instead.
#[derive(Clone, Copy, Debug, PartialEq, Eq, Hash, Structural)]
pub enum DestinyVendorItemRefundPolicy {
    NotRefundable,
    DeletesItem,
    RevokesLicense,
}

impl DestinyVendorItemRefundPolicy {
    /// The name of the variant, the text that `from_str` reads.
    pub open spec fn spec_name(self) -> Seq<char> {
        match self {
            DestinyVendorItemRefundPolicy::NotRefundable => "NotRefundable"@,
            DestinyVendorItemRefundPolicy::DeletesItem => "DeletesItem"@,
            DestinyVendorItemRefundPolicy::RevokesLicense => "RevokesLicense"@,
        }
    }

    /// The number that stands for the variant on the wire.
    pub open spec fn spec_value(self) -> i32 {
        match self {
            DestinyVendorItemRefundPolicy::NotRefundable => 0,
            DestinyVendorItemRefundPolicy::DeletesItem => 1,
            DestinyVendorItemRefundPolicy::RevokesLicense => 2,
        }
    }

    /// The number that stands for the variant on the wire.
    pub fn value(&self) -> (v: i32)
        ensures
            v == self.spec_value(),
    {
        match self {
            DestinyVendorItemRefundPolicy::NotRefundable => 0,
            DestinyVendorItemRefundPolicy::DeletesItem => 1,
            DestinyVendorItemRefundPolicy::RevokesLicense => 2,
        }
    }

    /// The variant's number written in decimal.
    pub fn to_string(&self) -> (s: String)
        ensures
            s@ == decimal(self.spec_value() as nat),
    {
        let v = self.value();
        format_decimal(v as u32)
    }

    /// The variant named `s`; any other text is refused with an error that
    /// carries it.
    pub fn from_str(s: &str) -> (r: Result<DestinyVendorItemRefundPolicy, ParseEnumError>)
        ensures
            r matches Ok(v) ==> v.spec_name() == s@,
            r matches Err(e) ==> e.input@ == s@ && e.target@ == "DestinyVendorItemRefundPolicy"@ && (forall|v: DestinyVendorItemRefundPolicy| v.spec_name() != s@),
            forall|v: DestinyVendorItemRefundPolicy| #[trigger] v.spec_name() == s@ ==> r == Ok::<DestinyVendorItemRefundPolicy, ParseEnumError>(v),
    {
        let r = if str_eq(s, "NotRefundable") {
            Ok(DestinyVendorItemRefundPolicy::NotRefundable)
        } else if str_eq(s, "DeletesItem") {
            Ok(DestinyVendorItemRefundPolicy::DeletesItem)
        } else if str_eq(s, "RevokesLicense") {
            Ok(DestinyVendorItemRefundPolicy::RevokesLicense)
        } else {
            Err(ParseEnumError::new(s, "DestinyVendorItemRefundPolicy"))
        };
        proof {
            assert forall|v: DestinyVendorItemRefundPolicy| #[trigger] v.spec_name() == s@ implies r == Ok::<DestinyVendorItemRefundPolicy, ParseEnumError>(v) by {
                if let Ok(w) = r {
                    DestinyVendorItemRefundPolicy::lemma_names_distinct(v, w);
                }
            }
        }
        r
    }

    /// Distinct variants have distinct names.
    pub proof fn lemma_names_distinct(a: DestinyVendorItemRefundPolicy, b: DestinyVendorItemRefundPolicy)
        ensures
            a.spec_name() == b.spec_name() ==> a == b,
    {
        reveal_strlit("NotRefundable");
        assert("NotRefundable"@.len() == 13);
        reveal_strlit("DeletesItem");
        assert("DeletesItem"@.len() == 11);
        reveal_strlit("RevokesLicense");
        assert("RevokesLicense"@.len() == 14);
    }

    /// Distinct variants have distinct numbers.
    pub proof fn lemma_values_distinct(a: DestinyVendorItemRefundPolicy, b: DestinyVendorItemRefundPolicy)
        ensures
            a.spec_value() == b.spec_value() ==> a == b,
    {
    }
}

impl core::str::FromStr for DestinyVendorItemRefundPolicy {
    type Err = ParseEnumError;

    fn from_str(s: &str) -> (r: Result<DestinyVendorItemRefundPolicy, ParseEnumError>)
        ensures
            r matches Ok(v) ==> v.spec_name() == s@,
            r matches Err(e) ==> e.input@ == s@ && e.target@ == "DestinyVendorItemRefundPolicy"@ && (forall|v: DestinyVendorItemRefundPolicy| v.spec_name() != s@),
            forall|v: DestinyVendorItemRefundPolicy| #[trigger] v.spec_name() == s@ ==> r == Ok::<DestinyVendorItemRefundPolicy, ParseEnumError>(v),
    {
        DestinyVendorItemRefundPolicy::from_str(s)
    }
}

/// This enumeration represents the most restrictive type of gating that is being performed by an entity. This is useful as a shortcut to avoid a lot of lookups when determining whether the gating on an Entity applies to everyone equally, or to their specific Profile or Character states.
/// None = There is no gating on this item.
/// Global = The gating on this item is based entirely on global game state. It will be gated the same for everyone.
/// Clan = The gating on this item is at the Clan level. For instance, if you're gated by Clan level this will be the case.
/// Profile = The gating includes Profile-specific checks, but not on the Profile's characters. An example of this might be when you acquire an Emblem: the Emblem will be available in your Kiosk for all characters in your Profile from that point onward.
/// Character = The gating includes Character-specific checks, including character level restrictions. An example of this might be an item that you can't purchase from a Vendor until you reach a specific Character Level.
/// Item = The gating includes item-specific checks. For BNet, this generally implies that we'll show this data only on a character level or deeper.
/// AssumedWorstCase = The unlocks and checks being used for this calculation are of an unknown type and are used for unknown purposes. For instance, if some great person decided that an unlock value should be globally scoped, but then the game changes it using character-specific data in a way that BNet doesn't know about. Because of the open-ended potential for this to occur, many unlock checks for "globally" scoped unlock data may be assumed as the worst case unless it has been specifically whitelisted as otherwise. That sucks, but them's the breaks.
///
/// The number that stands for a variant on the wire is `value()`; an `as`
/// cast gives the variant's position in the list instead.
#[derive(Clone, Copy, Debug, PartialEq, Eq, Hash, Structural)]
pub enum DestinyGatingScope {
    /// The API calls this variant `None`; `from_str` reads that name.
    None_,
    Global,
    Clan,
    Profile,
    Character,
    Item,
    AssumedWorstCase,
}

impl DestinyGatingScope {
    /// The name of the variant, the text that `from_str` reads.
    pub open spec fn spec_name(self) -> Seq<char> {
        match self {
            DestinyGatingScope::None_ => "None"@,
            DestinyGatingScope::Global => "Global"@,
            DestinyGatingScope::Clan => "Clan"@,
            DestinyGatingScope::Profile => "Profile"@,
            DestinyGatingScope::Character => "Character"@,
            DestinyGatingScope::Item => "Item"@,
            DestinyGatingScope::AssumedWorstCase => "AssumedWorstCase"@,
        }
    }

    /// The number that stands for the variant on the wire.
    pub open spec fn spec_value(self) -> i32 {
        match self {
            DestinyGatingScope::None_ => 0,
            DestinyGatingScope::Global => 1,
            DestinyGatingScope::Clan => 2,
            DestinyGatingScope::Profile => 3,
            DestinyGatingScope::Character => 4,
            DestinyGatingScope::Item => 5,
            DestinyGatingScope::AssumedWorstCase => 6,
        }
    }

    /// The number that stands for the variant on the wire.
    pub fn value(&self) -> (v: i32)
        ensures
            v == self.spec_value(),
    {
        match self {
            DestinyGatingScope::None_ => 0,
            DestinyGatingScope::Global => 1,
            DestinyGatingScope::Clan => 2,
            DestinyGatingScope::Profile => 3,
            DestinyGatingScope::Character => 4,
            DestinyGatingScope::Item => 5,
            DestinyGatingScope::AssumedWorstCase => 6,
        }
    }

    /// The variant's number written in decimal.
    pub fn to_string(&self) -> (s: String)
        ensures
            s@ == decimal(self.spec_value() as nat),
    {
        let v = self.value();
        format_decimal(v as u32)
    }

    /// The variant named `s`; any other text is refused with an error that
    /// carries it.
    pub fn from_str(s: &str) -> (r: Result<DestinyGatingScope, ParseEnumError>)
        ensures
            r matches Ok(v) ==> v.spec_name() == s@,
            r matches Err(e) ==> e.input@ == s@ && e.target@ == "DestinyGatingScope"@ && (forall|v: DestinyGatingScope| v.spec_name() != s@),
            forall|v: DestinyGatingScope| #[trigger] v.spec_name() == s@ ==> r == Ok::<DestinyGatingScope, ParseEnumError>(v),
    {
        let r = if str_eq(s, "None") {
            Ok(DestinyGatingScope::None_)
        } else if str_eq(s, "Global") {
            Ok(DestinyGatingScope::Global)
        } else if str_eq(s, "Clan") {
            Ok(DestinyGatingScope::Clan)
        } else if str_eq(s, "Profile") {
            Ok(DestinyGatingScope::Profile)
        } else if str_eq(s, "Character") {
            Ok(DestinyGatingScope::Character)
        } else if str_eq(s, "Item") {
            Ok(DestinyGatingScope::Item)
        } else if str_eq(s, "AssumedWorstCase") {
            Ok(DestinyGatingScope::AssumedWorstCase)
        } else {
            Err(ParseEnumError::new(s, "DestinyGatingScope"))
        };
        proof {
            assert forall|v: DestinyGatingScope| #[trigger] v.spec_name() == s@ implies r == Ok::<DestinyGatingScope, ParseEnumError>(v) by {
                if let Ok(w) = r {
                    DestinyGatingScope::lemma_names_distinct(v, w);
                }
            }
        }
        r
    }

    /// Distinct variants have distinct names.
    pub proof fn lemma_names_distinct(a: DestinyGatingScope, b: DestinyGatingScope)
        ensures
            a.spec_name() == b.spec_name() ==> a == b,
    {
        reveal_strlit("None");
        assert("None"@.len() == 4);
        reveal_strlit("Global");
        assert("Global"@.len() == 6);
        reveal_strlit("Clan");
        assert("Clan"@.len() == 4);
        reveal_strlit("Profile");
        assert("Profile"@.len() == 7);
        reveal_strlit("Character");
        assert("Character"@.len() == 9);
        reveal_strlit("Item");
        assert("Item"@.len() == 4);
        reveal_strlit("AssumedWorstCase");
        assert("AssumedWorstCase"@.len() == 16);
        assert("None"@[0] != "Clan"@[0]);
        assert("None"@[0] != "Item"@[0]);
        assert("Clan"@[0] != "Item"@[0]);
    }

    /// Distinct variants have distinct numbers.
    pub proof fn lemma_values_distinct(a: DestinyGatingScope, b: DestinyGatingScope)
        ensures
            a.spec_value() == b.spec_value() ==> a == b,
    {
    }
}

impl core::str::FromStr for DestinyGatingScope {
    type Err = ParseEnumError;

    fn from_str(s: &str) -> (r: Result<DestinyGatingScope, ParseEnumError>)
        ensures
            r matches Ok(v) ==> v.spec_name() == s@,
            r matches Err(e) ==> e.input@ == s@ && e.target@ == "DestinyGatingScope"@ && (forall|v: DestinyGatingScope| v.spec_name() != s@),
            forall|v: DestinyGatingScope| #[trigger] v.spec_name() == s@ ==> r == Ok::<DestinyGatingScope, ParseEnumError>(v),
    {
        DestinyGatingScope::from_str(s)
    }
}

/// Indicates the type of filter to apply to Vendor results.
///
/// The number that stands for a variant on the wire is `value()`; an `as`
/// cast gives the variant's position in the list instead.
#[derive(Clone, Copy, Debug, PartialEq, Eq, Hash, Structural)]
pub enum DestinyVendorFilter {
    /// The API calls this variant `None`; `from_str` reads that name.
    None_,
    ApiPurchasable,
}

impl DestinyVendorFilter {
    /// The name of the variant, the text that `from_str` reads.
    pub open spec fn spec_name(self) -> Seq<char> {
        match self {
            DestinyVendorFilter::None_ => "None"@,
            DestinyVendorFilter::ApiPurchasable => "ApiPurchasable"@,
        }
    }

    /// The number that stands for the variant on the wire.
    pub open spec fn spec_value(self) -> i32 {
        match self {
            DestinyVendorFilter::None_ => 0,
            DestinyVendorFilter::ApiPurchasable => 1,
        }
    }

    /// The number that stands for the variant on the wire.
    pub fn value(&self) -> (v: i32)
        ensures
            v == self.spec_value(),
    {
        match self {
            DestinyVendorFilter::None_ => 0,
            DestinyVendorFilter::ApiPurchasable => 1,
        }
    }

    /// The variant's number written in decimal.
    pub fn to_string(&self) -> (s: String)
        ensures
            s@ == decimal(self.spec_value() as nat),
    {
        let v = self.value();
        format_decimal(v as u32)
    }

    /// The variant named `s`; any other text is refused with an error that
    /// carries it.
    pub fn from_str(s: &str) -> (r: Result<DestinyVendorFilter, ParseEnumError>)
        ensures
            r matches Ok(v) ==> v.spec_name() == s@,
            r matches Err(e) ==> e.input@ == s@ && e.target@ == "DestinyVendorFilter"@ && (forall|v: DestinyVendorFilter| v.spec_name() != s@),
            forall|v: DestinyVendorFilter| #[trigger] v.spec_name() == s@ ==> r == Ok::<DestinyVendorFilter, ParseEnumError>(v),
    {
        let r = if str_eq(s, "None") {
            Ok(DestinyVendorFilter::None_)
        } else if str_eq(s, "ApiPurchasable") {
            Ok(DestinyVendorFilter::ApiPurchasable)
        } else {
            Err(ParseEnumError::new(s, "DestinyVendorFilter"))
        };
        proof {
            assert forall|v: DestinyVendorFilter| #[trigger] v.spec_name() == s@ implies r == Ok::<DestinyVendorFilter, ParseEnumError>(v) by {
                if let Ok(w) = r {
                    DestinyVendorFilter::lemma_names_distinct(v, w);
                }
            }
        }
        r
    }

    /// Distinct variants have distinct names.
    pub proof fn lemma_names_distinct(a: DestinyVendorFilter, b: DestinyVendorFilter)
        ensures
            a.spec_name() == b.spec_name() ==> a == b,
    {
        reveal_strlit("None");
        assert("None"@.len() == 4);
        reveal_strlit("ApiPurchasable");
        assert("ApiPurchasable"@.len() == 14);
    }

    /// Distinct variants have distinct numbers.
    pub proof fn lemma_values_distinct(a: DestinyVendorFilter, b: DestinyVendorFilter)
        ensures
            a.spec_value() == b.spec_value() ==> a == b,
    {
    }
}

impl core::str::FromStr for DestinyVendorFilter {
    type Err = ParseEnumError;

    fn from_str(s: &str) -> (r: Result<DestinyVendorFilter, ParseEnumError>)
        ensures
            r matches Ok(v) ==> v.spec_name() == s@,
            r matches Err(e) ==> e.input@ == s@ && e.target@ == "DestinyVendorFilter"@ && (forall|v: DestinyVendorFilter| v.spec_name() != s@),
            forall|v: DestinyVendorFilter| #[trigger] v.spec_name() == s@ ==> r == Ok::<DestinyVendorFilter, ParseEnumError>(v),
    {
        DestinyVendorFilter::from_str(s)
    }
}

/// The number that stands for a variant on the wire is `value()`; an `as`
/// cast gives the variant's position in the list instead.
///
/// Each variant is one flag: its number has exactly one bit set.
#[derive(Clone, Copy, Debug, PartialEq, Eq, Hash, Structural)]
pub enum VendorItemStatus {
    NoInventorySpace,
    NoFunds,
    NoProgression,
    NoUnlock,
    NoQuantity,
    OutsidePurchaseWindow,
    NotAvailable,
    UniquenessViolation,
    UnknownError,
    AlreadySelling,
    Unsellable,
    SellingInhibited,
    AlreadyOwned,
    DisplayOnly,
}

impl VendorItemStatus {
    /// The name of the variant, the text that `from_str` reads.
    pub open spec fn spec_name(self) -> Seq<char> {
        match self {
            VendorItemStatus::NoInventorySpace => "NoInventorySpace"@,
            VendorItemStatus::NoFunds => "NoFunds"@,
            VendorItemStatus::NoProgression => "NoProgression"@,
            VendorItemStatus::NoUnlock => "NoUnlock"@,
            VendorItemStatus::NoQuantity => "NoQuantity"@,
            VendorItemStatus::OutsidePurchaseWindow => "OutsidePurchaseWindow"@,
            VendorItemStatus::NotAvailable => "NotAvailable"@,
            VendorItemStatus::UniquenessViolation => "UniquenessViolation"@,
            VendorItemStatus::UnknownError => "UnknownError"@,
            VendorItemStatus::AlreadySelling => "AlreadySelling"@,
            VendorItemStatus::Unsellable => "Unsellable"@,
            VendorItemStatus::SellingInhibited => "SellingInhibited"@,
            VendorItemStatus::AlreadyOwned => "AlreadyOwned"@,
            VendorItemStatus::DisplayOnly => "DisplayOnly"@,
        }
    }

    /// The number that stands for the variant on the wire.
    pub open spec fn spec_value(self) -> u32 {
        match self {
            VendorItemStatus::NoInventorySpace => 1,
            VendorItemStatus::NoFunds => 2,
            VendorItemStatus::NoProgression => 4,
            VendorItemStatus::NoUnlock => 8,
            VendorItemStatus::NoQuantity => 16,
            VendorItemStatus::OutsidePurchaseWindow => 32,
            VendorItemStatus::NotAvailable => 64,
            VendorItemStatus::UniquenessViolation => 128,
            VendorItemStatus::UnknownError => 256,
            VendorItemStatus::AlreadySelling => 512,
            VendorItemStatus::Unsellable => 1024,
            VendorItemStatus::SellingInhibited => 2048,
            VendorItemStatus::AlreadyOwned => 4096,
            VendorItemStatus::DisplayOnly => 8192,
        }
    }

    /// The number that stands for the variant on the wire.
    pub fn value(&self) -> (v: u32)
        ensures
            v == self.spec_value(),
    {
        match self {
            VendorItemStatus::NoInventorySpace => 1,
            VendorItemStatus::NoFunds => 2,
            VendorItemStatus::NoProgression => 4,
            VendorItemStatus::NoUnlock => 8,
            VendorItemStatus::NoQuantity => 16,
            VendorItemStatus::OutsidePurchaseWindow => 32,
            VendorItemStatus::NotAvailable => 64,
            VendorItemStatus::UniquenessViolation => 128,
            VendorItemStatus::UnknownError => 256,
            VendorItemStatus::AlreadySelling => 512,
            VendorItemStatus::Unsellable => 1024,
            VendorItemStatus::SellingInhibited => 2048,
            VendorItemStatus::AlreadyOwned => 4096,
            VendorItemStatus::DisplayOnly => 8192,
        }
    }

    /// The variant's number written in decimal.
    pub fn to_string(&self) -> (s: String)
        ensures
            s@ == decimal(self.spec_value() as nat),
    {
        format_decimal(self.value())
    }

    /// The variant named `s`; any other text is refused with an error that
    /// carries it.
    pub fn from_str(s: &str) -> (r: Result<VendorItemStatus, ParseEnumError>)
        ensures
            r matches Ok(v) ==> v.spec_name() == s@,
            r matches Err(e) ==> e.input@ == s@ && e.target@ == "VendorItemStatus"@ && (forall|v: VendorItemStatus| v.spec_name() != s@),
            forall|v: VendorItemStatus| #[trigger] v.spec_name() == s@ ==> r == Ok::<VendorItemStatus, ParseEnumError>(v),
    {
        let r = if str_eq(s, "NoInventorySpace") {
            Ok(VendorItemStatus::NoInventorySpace)
        } else if str_eq(s, "NoFunds") {
            Ok(VendorItemStatus::NoFunds)
        } else if str_eq(s, "NoProgression") {
            Ok(VendorItemStatus::NoProgression)
        } else if str_eq(s, "NoUnlock") {
            Ok(VendorItemStatus::NoUnlock)
        } else if str_eq(s, "NoQuantity") {
            Ok(VendorItemStatus::NoQuantity)
        } else if str_eq(s, "OutsidePurchaseWindow") {
            Ok(VendorItemStatus::OutsidePurchaseWindow)
        } else if str_eq(s, "NotAvailable") {
            Ok(VendorItemStatus::NotAvailable)
        } else if str_eq(s, "UniquenessViolation") {
            Ok(VendorItemStatus::UniquenessViolation)
        } else if str_eq(s, "UnknownError") {
            Ok(VendorItemStatus::UnknownError)
        } else if str_eq(s, "AlreadySelling") {
            Ok(VendorItemStatus::AlreadySelling)
        } else if str_eq(s, "Unsellable") {
            Ok(VendorItemStatus::Unsellable)
        } else if str_eq(s, "SellingInhibited") {
            Ok(VendorItemStatus::SellingInhibited)
        } else if str_eq(s, "AlreadyOwned") {
            Ok(VendorItemStatus::AlreadyOwned)
        } else if str_eq(s, "DisplayOnly") {
            Ok(VendorItemStatus::DisplayOnly)
        } else {
            Err(ParseEnumError::new(s, "VendorItemStatus"))
        };
        proof {
            assert forall|v: VendorItemStatus| #[trigger] v.spec_name() == s@ implies r == Ok::<VendorItemStatus, ParseEnumError>(v) by {
                if let Ok(w) = r {
                    VendorItemStatus::lemma_names_distinct(v, w);
                }
            }
        }
        r
    }

    /// Distinct variants have distinct names.
    pub proof fn lemma_names_distinct(a: VendorItemStatus, b: VendorItemStatus)
        ensures
            a.spec_name() == b.spec_name() ==> a == b,
    {
        reveal_strlit("NoInventorySpace");
        assert("NoInventorySpace"@.len() == 16);
        reveal_strlit("NoFunds");
        assert("NoFunds"@.len() == 7);
        reveal_strlit("NoProgression");
        assert("NoProgression"@.len() == 13);
        reveal_strlit("NoUnlock");
        assert("NoUnlock"@.len() == 8);
        reveal_strlit("NoQuantity");
        assert("NoQuantity"@.len() == 10);
        reveal_strlit("OutsidePurchaseWindow");
        assert("OutsidePurchaseWindow"@.len() == 21);
        reveal_strlit("NotAvailable");
        assert("NotAvailable"@.len() == 12);
        reveal_strlit("UniquenessViolation");
        assert("UniquenessViolation"@.len() == 19);
        reveal_strlit("UnknownError");
        assert("UnknownError"@.len() == 12);
        reveal_strlit("AlreadySelling");
        assert("AlreadySelling"@.len() == 14);
        reveal_strlit("Unsellable");
        assert("Unsellable"@.len() == 10);
        reveal_strlit("SellingInhibited");
        assert("SellingInhibited"@.len() == 16);
        reveal_strlit("AlreadyOwned");
        assert("AlreadyOwned"@.len() == 12);
        reveal_strlit("DisplayOnly");
        assert("DisplayOnly"@.len() == 11);
        assert("NoInventorySpace"@[0] != "SellingInhibited"@[0]);
        assert("NoQuantity"@[0] != "Unsellable"@[0]);
        assert("NotAvailable"@[0] != "UnknownError"@[0]);
        assert("NotAvailable"@[0] != "AlreadyOwned"@[0]);
        assert("UnknownError"@[0] != "AlreadyOwned"@[0]);
    }

    /// Distinct variants have distinct numbers.
    pub proof fn lemma_values_distinct(a: VendorItemStatus, b: VendorItemStatus)
        ensures
            a.spec_value() == b.spec_value() ==> a == b,
    {
    }

    /// The number of every variant has exactly one bit set.
    pub proof fn lemma_single_bit(v: VendorItemStatus)
        ensures
            is_single_bit(v.spec_value()),
    {
        assert(is_single_bit(1u32) && is_single_bit(2u32) && is_single_bit(4u32) && is_single_bit(8u32) && is_single_bit(16u32) && is_single_bit(32u32) && is_single_bit(64u32) && is_single_bit(128u32) && is_single_bit(256u32) && is_single_bit(512u32) && is_single_bit(1024u32) && is_single_bit(2048u32) && is_single_bit(4096u32) && is_single_bit(8192u32)) by (bit_vector);
    }

    /// Distinct variants share no bit of their numbers.
    pub proof fn lemma_flags_disjoint(a: VendorItemStatus, b: VendorItemStatus)
        ensures
            a != b ==> a.spec_value() & b.spec_value() == 0,
    {
        if a != b {
            VendorItemStatus::lemma_single_bit(a);
            VendorItemStatus::lemma_single_bit(b);
            VendorItemStatus::lemma_values_distinct(a, b);
            lemma_single_bits_disjoint(a.spec_value(), b.spec_value());
        }
    }
}

impl core::str::FromStr for VendorItemStatus {
    type Err = ParseEnumError;

    fn from_str(s: &str) -> (r: Result<VendorItemStatus, ParseEnumError>)
        ensures
            r matches Ok(v) ==> v.spec_name() == s@,
            r matches Err(e) ==> e.input@ == s@ && e.target@ == "VendorItemStatus"@ && (forall|v: VendorItemStatus| v.spec_name() != s@),
            forall|v: VendorItemStatus| #[trigger] v.spec_name() == s@ ==> r == Ok::<VendorItemStatus, ParseEnumError>(v),
    {
        VendorItemStatus::from_str(s)
    }
}

/// The possible states of Destiny Profile Records. IMPORTANT: Any given item can theoretically have many of these states simultaneously: as a result, this was altered to be a flags enumeration/bitmask for v3.2.0.
///
/// The number that stands for a variant on the wire is `value()`; an `as`
/// cast gives the variant's position in the list instead.
///
/// Each variant is one flag: its number has exactly one bit set.
#[derive(Clone, Copy, Debug, PartialEq, Eq, Hash, Structural)]
pub enum DestinyVendorItemState {
    /// Deprecated forever (probably). There was a time when Records were going to be implemented through Vendors, and this field was relevant. Now they're implemented through Presentation Nodes, and this field doesn't matter anymore.
    Incomplete,
    /// Deprecated forever (probably). See the description of the "Incomplete" value for the juicy scoop.
    RewardAvailable,
    /// Deprecated forever (probably). See the description of the "Incomplete" value for the juicy scoop.
    Complete,
    /// This item is considered to be "newly available", and should have some UI showing how shiny it is.
    New,
    /// This item is being "featured", and should be shiny in a different way from items that are merely new.
    Featured,
    /// This item is only available for a limited time, and that time is approaching.
    Ending,
    /// This item is "on sale". Get it while it's hot.
    OnSale,
    /// This item is already owned.
    Owned,
    /// This item should be shown with a "wide view" instead of normal icon view.
    WideView,
    /// This indicates that you should show some kind of attention-requesting indicator on the item, in a similar manner to items in the nexus that have such notifications.
    NexusAttention,
    /// This indicates that the item has some sort of a 'set' discount.
    SetDiscount,
    /// This indicates that the item has a price drop.
    PriceDrop,
    /// This indicates that the item is a daily offer.
    DailyOffer,
    /// This indicates that the item is for charity.
    Charity,
    /// This indicates that the item has a seasonal reward expiration.
    SeasonalRewardExpiration,
    /// This indicates that the sale item is the best deal among different choices.
    BestDeal,
    /// This indicates that the sale item is popular.
    Popular,
    /// This indicates that the sale item is free.
    Free,
    /// This indicates that the sale item is locked.
    Locked,
    /// This indicates that the sale item is paracausal.
    Paracausal,
    Cryptarch,
}

impl DestinyVendorItemState {
    /// The name of the variant, the text that `from_str` reads.
    pub open spec fn spec_name(self) -> Seq<char> {
        match self {
            DestinyVendorItemState::Incomplete => "Incomplete"@,
            DestinyVendorItemState::RewardAvailable => "RewardAvailable"@,
            DestinyVendorItemState::Complete => "Complete"@,
            DestinyVendorItemState::New => "New"@,
            DestinyVendorItemState::Featured => "Featured"@,
            DestinyVendorItemState::Ending => "Ending"@,
            DestinyVendorItemState::OnSale => "OnSale"@,
            DestinyVendorItemState::Owned => "Owned"@,
            DestinyVendorItemState::WideView => "WideView"@,
            DestinyVendorItemState::NexusAttention => "NexusAttention"@,
            DestinyVendorItemState::SetDiscount => "SetDiscount"@,
            DestinyVendorItemState::PriceDrop => "PriceDrop"@,
            DestinyVendorItemState::DailyOffer => "DailyOffer"@,
            DestinyVendorItemState::Charity => "Charity"@,
            DestinyVendorItemState::SeasonalRewardExpiration => "SeasonalRewardExpiration"@,
            DestinyVendorItemState::BestDeal => "BestDeal"@,
            DestinyVendorItemState::Popular => "Popular"@,
            DestinyVendorItemState::Free => "Free"@,
            DestinyVendorItemState::Locked => "Locked"@,
            DestinyVendorItemState::Paracausal => "Paracausal"@,
            DestinyVendorItemState::Cryptarch => "Cryptarch"@,
        }
    }

    /// The number that stands for the variant on the wire.
    pub open spec fn spec_value(self) -> u32 {
        match self {
            DestinyVendorItemState::Incomplete => 1,
            DestinyVendorItemState::RewardAvailable => 2,
            DestinyVendorItemState::Complete => 4,
            DestinyVendorItemState::New => 8,
            DestinyVendorItemState::Featured => 16,
            DestinyVendorItemState::Ending => 32,
            DestinyVendorItemState::OnSale => 64,
            DestinyVendorItemState::Owned => 128,
            DestinyVendorItemState::WideView => 256,
            DestinyVendorItemState::NexusAttention => 512,
            DestinyVendorItemState::SetDiscount => 1024,
            DestinyVendorItemState::PriceDrop => 2048,
            DestinyVendorItemState::DailyOffer => 4096,
            DestinyVendorItemState::Charity => 8192,
            DestinyVendorItemState::SeasonalRewardExpiration => 16384,
            DestinyVendorItemState::BestDeal => 32768,
            DestinyVendorItemState::Popular => 65536,
            DestinyVendorItemState::Free => 131072,
            DestinyVendorItemState::Locked => 262144,
            DestinyVendorItemState::Paracausal => 524288,
            DestinyVendorItemState::Cryptarch => 1048576,
        }
    }

    /// The number that stands for the variant on the wire.
    pub fn value(&self) -> (v: u32)
        ensures
            v == self.spec_value(),
    {
        match self {
            DestinyVendorItemState::Incomplete => 1,
            DestinyVendorItemState::RewardAvailable => 2,
            DestinyVendorItemState::Complete => 4,
            DestinyVendorItemState::New => 8,
            DestinyVendorItemState::Featured => 16,
            DestinyVendorItemState::Ending => 32,
            DestinyVendorItemState::OnSale => 64,
            DestinyVendorItemState::Owned => 128,
            DestinyVendorItemState::WideView => 256,
            DestinyVendorItemState::NexusAttention => 512,
            DestinyVendorItemState::SetDiscount => 1024,
            DestinyVendorItemState::PriceDrop => 2048,
            DestinyVendorItemState::DailyOffer => 4096,
            DestinyVendorItemState::Charity => 8192,
            DestinyVendorItemState::SeasonalRewardExpiration => 16384,
            DestinyVendorItemState::BestDeal => 32768,
            DestinyVendorItemState::Popular => 65536,
            DestinyVendorItemState::Free => 131072,
            DestinyVendorItemState::Locked => 262144,
            DestinyVendorItemState::Paracausal => 524288,
            DestinyVendorItemState::Cryptarch => 1048576,
        }
    }

    /// The variant's number written in decimal.
    pub fn to_string(&self) -> (s: String)
        ensures
            s@ == decimal(self.spec_value() as nat),
    {
        format_decimal(self.value())
    }

    /// The variant named `s`; any other text is refused with an error that
    /// carries it.
    pub fn from_str(s: &str) -> (r: Result<DestinyVendorItemState, ParseEnumError>)
        ensures
            r matches Ok(v) ==> v.spec_name() == s@,
            r matches Err(e) ==> e.input@ == s@ && e.target@ == "DestinyVendorItemState"@ && (forall|v: DestinyVendorItemState| v.spec_name() != s@),
            forall|v: DestinyVendorItemState| #[trigger] v.spec_name() == s@ ==> r == Ok::<DestinyVendorItemState, ParseEnumError>(v),
    {
        let r = if str_eq(s, "Incomplete") {
            Ok(DestinyVendorItemState::Incomplete)
        } else if str_eq(s, "RewardAvailable") {
            Ok(DestinyVendorItemState::RewardAvailable)
        } else if str_eq(s, "Complete") {
            Ok(DestinyVendorItemState::Complete)
        } else if str_eq(s, "New") {
            Ok(DestinyVendorItemState::New)
        } else if str_eq(s, "Featured") {
            Ok(DestinyVendorItemState::Featured)
        } else if str_eq(s, "Ending") {
            Ok(DestinyVendorItemState::Ending)
        } else if str_eq(s, "OnSale") {
            Ok(DestinyVendorItemState::OnSale)
        } else if str_eq(s, "Owned") {
            Ok(DestinyVendorItemState::Owned)
        } else if str_eq(s, "WideView") {
            Ok(DestinyVendorItemState::WideView)
        } else if str_eq(s, "NexusAttention") {
            Ok(DestinyVendorItemState::NexusAttention)
        } else if str_eq(s, "SetDiscount") {
            Ok(DestinyVendorItemState::SetDiscount)
        } else if str_eq(s, "PriceDrop") {
            Ok(DestinyVendorItemState::PriceDrop)
        } else if str_eq(s, "DailyOffer") {
            Ok(DestinyVendorItemState::DailyOffer)
        } else if str_eq(s, "Charity") {
            Ok(DestinyVendorItemState::Charity)
        } else if str_eq(s, "SeasonalRewardExpiration") {
            Ok(DestinyVendorItemState::SeasonalRewardExpiration)
        } else if str_eq(s, "BestDeal") {
            Ok(DestinyVendorItemState::BestDeal)
        } else if str_eq(s, "Popular") {
            Ok(DestinyVendorItemState::Popular)
        } else if str_eq(s, "Free") {
            Ok(DestinyVendorItemState::Free)
        } else if str_eq(s, "Locked") {
            Ok(DestinyVendorItemState::Locked)
        } else if str_eq(s, "Paracausal") {
            Ok(DestinyVendorItemState::Paracausal)
        } else if str_eq(s, "Cryptarch") {
            Ok(DestinyVendorItemState::Cryptarch)
        } else {
            Err(ParseEnumError::new(s, "DestinyVendorItemState"))
        };
        proof {
            assert forall|v: DestinyVendorItemState| #[trigger] v.spec_name() == s@ implies r == Ok::<DestinyVendorItemState, ParseEnumError>(v) by {
                if let Ok(w) = r {
                    DestinyVendorItemState::lemma_names_distinct(v, w);
                }
            }
        }
        r
    }

    /// Distinct variants have distinct names.
    pub proof fn lemma_names_distinct(a: DestinyVendorItemState, b: DestinyVendorItemState)
        ensures
            a.spec_name() == b.spec_name() ==> a == b,
    {
        reveal_strlit("Incomplete");
        assert("Incomplete"@.len() == 10);
        reveal_strlit("RewardAvailable");
        assert("RewardAvailable"@.len() == 15);
        reveal_strlit("Complete");
        assert("Complete"@.len() == 8);
        reveal_strlit("New");
        assert("New"@.len() == 3);
        reveal_strlit("Featured");
        assert("Featured"@.len() == 8);
        reveal_strlit("Ending");
        assert("Ending"@.len() == 6);
        reveal_strlit("OnSale");
        assert("OnSale"@.len() == 6);
        reveal_strlit("Owned");
        assert("Owned"@.len() == 5);
        reveal_strlit("WideView");
        assert("WideView"@.len() == 8);
        reveal_strlit("NexusAttention");
        assert("NexusAttention"@.len() == 14);
        reveal_strlit("SetDiscount");
        assert("SetDiscount"@.len() == 11);
        reveal_strlit("PriceDrop");
        assert("PriceDrop"@.len() == 9);
        reveal_strlit("DailyOffer");
        assert("DailyOffer"@.len() == 10);
        reveal_strlit("Charity");
        assert("Charity"@.len() == 7);
        reveal_strlit("SeasonalRewardExpiration");
        assert("SeasonalRewardExpiration"@.len() == 24);
        reveal_strlit("BestDeal");
        assert("BestDeal"@.len() == 8);
        reveal_strlit("Popular");
        assert("Popular"@.len() == 7);
        reveal_strlit("Free");
        assert("Free"@.len() == 4);
        reveal_strlit("Locked");
        assert("Locked"@.len() == 6);
        reveal_strlit("Paracausal");
        assert("Paracausal"@.len() == 10);
        reveal_strlit("Cryptarch");
        assert("Cryptarch"@.len() == 9);
        assert("Incomplete"@[0] != "DailyOffer"@[0]);
        assert("Incomplete"@[0] != "Paracausal"@[0]);
        assert("Complete"@[0] != "Featured"@[0]);
        assert("Complete"@[0] != "WideView"@[0]);
        assert("Complete"@[0] != "BestDeal"@[0]);
        assert("Featured"@[0] != "WideView"@[0]);
        assert("Featured"@[0] != "BestDeal"@[0]);
        assert("Ending"@[0] != "OnSale"@[0]);
        assert("Ending"@[0] != "Locked"@[0]);
        assert("OnSale"@[0] != "Locked"@[0]);
        assert("WideView"@[0] != "BestDeal"@[0]);
        assert("PriceDrop"@[0] != "Cryptarch"@[0]);
        assert("DailyOffer"@[0] != "Paracausal"@[0]);
        assert("Charity"@[0] != "Popular"@[0]);
    }

    /// Distinct variants have distinct numbers.
    pub proof fn lemma_values_distinct(a: DestinyVendorItemState, b: DestinyVendorItemState)
        ensures
            a.spec_value() == b.spec_value() ==> a == b,
    {
    }

    /// The number of every variant has exactly one bit set.
    pub proof fn lemma_single_bit(v: DestinyVendorItemState)
        ensures
            is_single_bit(v.spec_value()),
    {
        assert(is_single_bit(1u32) && is_single_bit(2u32) && is_single_bit(4u32) && is_single_bit(8u32) && is_single_bit(16u32) && is_single_bit(32u32) && is_single_bit(64u32) && is_single_bit(128u32) && is_single_bit(256u32) && is_single_bit(512u32) && is_single_bit(1024u32) && is_single_bit(2048u32) && is_single_bit(4096u32) && is_single_bit(8192u32) && is_single_bit(16384u32) && is_single_bit(32768u32) && is_single_bit(65536u32) && is_single_bit(131072u32) && is_single_bit(262144u32) && is_single_bit(524288u32) && is_single_bit(1048576u32)) by (bit_vector);
    }

    /// Distinct variants share no bit of their numbers.
    pub proof fn lemma_flags_disjoint(a: DestinyVendorItemState, b: DestinyVendorItemState)
        ensures
            a != b ==> a.spec_value() & b.spec_value() == 0,
    {
        if a != b {
            DestinyVendorItemState::lemma_single_bit(a);
            DestinyVendorItemState::lemma_single_bit(b);
            DestinyVendorItemState::lemma_values_distinct(a, b);
            lemma_single_bits_disjoint(a.spec_value(), b.spec_value());
        }
    }
}

impl core::str::FromStr for DestinyVendorItemState {
    type Err = ParseEnumError;

    fn from_str(s: &str) -> (r: Result<DestinyVendorItemState, ParseEnumError>)
        ensures
            r matches Ok(v) ==> v.spec_name() == s@,
            r matches Err(e) ==> e.input@ == s@ && e.target@ == "DestinyVendorItemState"@ && (forall|v: DestinyVendorItemState| v.spec_name() != s@),
            forall|v: DestinyVendorItemState| #[trigger] v.spec_name() == s@ ==> r == Ok::<DestinyVendorItemState, ParseEnumError>(v),
    {
        DestinyVendorItemState::from_str(s)
    }
}

} // verus!
