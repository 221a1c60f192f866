//! Progressions: how far a character has come along a track, and how it resets.
use vstd::prelude::*;
use crate::error::ParseEnumError;
use crate::text::{decimal, format_decimal, str_eq};
use crate::flags::{is_single_bit, lemma_single_bits_disjoint};

verus! {

/// Information about a current character's status with a Progression. A progression is a value that can increase with activity and has levels. Think Character Level and Reputation Levels. Combine this "live" data with the related DestinyProgressionDefinition for a full picture of the Progression.
#[derive(Clone, Debug, PartialEq)]
pub struct DestinyProgression {
    /// The hash identifier of the Progression in question. Use it to look up the DestinyProgressionDefinition in static data.
    pub progression_hash: u32,

    /// The amount of progress earned today for this progression.
    pub daily_progress: i32,

    /// If this progression has a daily limit, this is that limit.
    pub daily_limit: i32,

    /// The amount of progress earned toward this progression in the current week.
    pub weekly_progress: i32,

    /// If this progression has a weekly limit, this is that limit.
    pub weekly_limit: i32,

    /// This is the total amount of progress obtained overall for this progression (for instance, the total amount of Character Level experience earned)
    pub current_progress: i32,

    /// This is the level of the progression (for instance, the Character Level).
    pub level: i32,

    /// This is the maximum possible level you can achieve for this progression (for example, the maximum character level obtainable)
    pub level_cap: i32,

    /// Progressions define their levels in "steps". Since the last step may be repeatable, the user may be at a higher level than the actual Step achieved in the progression. Not necessarily useful, but potentially interesting for those cruising the API. Relate this to the "steps" property of the DestinyProgression to see which step the user is on, if you care about that. (Note that this is Content Version dependent since it refers to indexes.)
    pub step_index: i32,

    /// The amount of progression (i.e. "Experience") needed to reach the next level of this Progression. Jeez, progression is such an overloaded word.
    pub progress_to_next_level: i32,

    /// The total amount of progression (i.e. "Experience") needed in order to reach the next level.
    pub next_level_at: i32,

    /// The number of resets of this progression you've executed this season, if applicable to this progression.
    pub current_reset_count: Option<i32>,

    /// Information about historical resets of this progression, if there is any data for it.
    pub season_resets: Option<Vec<DestinyProgressionResetEntry>>,

    /// Information about historical rewards for this progression, if there is any data for it.
    pub reward_item_states: Option<Vec<DestinyProgressionRewardItemState>>,
}

/// Represents a season and the number of resets you had in that season.
/// We do not necessarily - even for progressions with resets - track it over all seasons. So be careful and check the season numbers being returned.
#[derive(Clone, Debug, PartialEq)]
pub struct DestinyProgressionResetEntry {
    pub season: i32,

    pub resets: i32,
}

/// Represents the different states a progression reward item can be in.
///
/// The number that stands for a variant on the wire is `value()`; an `as`
/// cast gives the variant's position in the list instead.
///
/// Each variant is one flag: its number has exactly one bit set.
#[derive(Clone, Copy, Debug, PartialEq, Eq, Hash, Structural)]
pub enum DestinyProgressionRewardItemState {
    /// If this is set, the reward should be hidden.
    Invisible,
    /// If this is set, the reward has been earned.
    Earned,
    /// If this is set, the reward has been claimed.
    Claimed,
    /// If this is set, the reward is allowed to be claimed by this Character. An item can be earned but still can't be claimed in certain circumstances, like if it's only allowed for certain subclasses. It also might not be able to be claimed if you already claimed it!
    ClaimAllowed,
}

impl DestinyProgressionRewardItemState {
    /// The name of the variant, the text that `from_str` reads.
    pub open spec fn spec_name(self) -> Seq<char> {
        match self {
            DestinyProgressionRewardItemState::Invisible => "Invisible"@,
            DestinyProgressionRewardItemState::Earned => "Earned"@,
            DestinyProgressionRewardItemState::Claimed => "Claimed"@,
            DestinyProgressionRewardItemState::ClaimAllowed => "ClaimAllowed"@,
        }
    }

    /// The number that stands for the variant on the wire.
    pub open spec fn spec_value(self) -> u32 {
        match self {
            DestinyProgressionRewardItemState::Invisible => 1,
            DestinyProgressionRewardItemState::Earned => 2,
            DestinyProgressionRewardItemState::Claimed => 4,
            DestinyProgressionRewardItemState::ClaimAllowed => 8,
        }
    }

    /// The number that stands for the variant on the wire.
    pub fn value(&self) -> (v: u32)
        ensures
            v == self.spec_value(),
    {
        match self {
            DestinyProgressionRewardItemState::Invisible => 1,
            DestinyProgressionRewardItemState::Earned => 2,
            DestinyProgressionRewardItemState::Claimed => 4,
            DestinyProgressionRewardItemState::ClaimAllowed => 8,
        }
    }

    /// The variant's number written in decimal.
    pub fn to_string(&self) -> (s: String)
        ensures
            s@ == decimal(self.spec_value() as nat),
    {
        format_decimal(self.value())
    }

    /// The variant named `s`; any other text is refused with an error that
    /// carries it.
    pub fn from_str(s: &str) -> (r: Result<DestinyProgressionRewardItemState, ParseEnumError>)
        ensures
            r matches Ok(v) ==> v.spec_name() == s@,
            r matches Err(e) ==> e.input@ == s@ && e.target@ == "DestinyProgressionRewardItemState"@ && (forall|v: DestinyProgressionRewardItemState| v.spec_name() != s@),
            forall|v: DestinyProgressionRewardItemState| #[trigger] v.spec_name() == s@ ==> r == Ok::<DestinyProgressionRewardItemState, ParseEnumError>(v),
    {
        let r = if str_eq(s, "Invisible") {
            Ok(DestinyProgressionRewardItemState::Invisible)
        } else if str_eq(s, "Earned") {
            Ok(DestinyProgressionRewardItemState::Earned)
        } else if str_eq(s, "Claimed") {
            Ok(DestinyProgressionRewardItemState::Claimed)
        } else if str_eq(s, "ClaimAllowed") {
            Ok(DestinyProgressionRewardItemState::ClaimAllowed)
        } else {
            Err(ParseEnumError::new(s, "DestinyProgressionRewardItemState"))
        };
        proof {
            assert forall|v: DestinyProgressionRewardItemState| #[trigger] v.spec_name() == s@ implies r == Ok::<DestinyProgressionRewardItemState, ParseEnumError>(v) by {
                if let Ok(w) = r {
                    DestinyProgressionRewardItemState::lemma_names_distinct(v, w);
                }
            }
        }
        r
    }

    /// Distinct variants have distinct names.
    pub proof fn lemma_names_distinct(a: DestinyProgressionRewardItemState, b: DestinyProgressionRewardItemState)
        ensures
            a.spec_name() == b.spec_name() ==> a == b,
    {
        reveal_strlit("Invisible");
        assert("Invisible"@.len() == 9);
        reveal_strlit("Earned");
        assert("Earned"@.len() == 6);
        reveal_strlit("Claimed");
        assert("Claimed"@.len() == 7);
        reveal_strlit("ClaimAllowed");
        assert("ClaimAllowed"@.len() == 12);
    }

    /// Distinct variants have distinct numbers.
    pub proof fn lemma_values_distinct(a: DestinyProgressionRewardItemState, b: DestinyProgressionRewardItemState)
        ensures
            a.spec_value() == b.spec_value() ==> a == b,
    {
    }

    /// The number of every variant has exactly one bit set.
    pub proof fn lemma_single_bit(v: DestinyProgressionRewardItemState)
        ensures
            is_single_bit(v.spec_value()),
    {
        assert(is_single_bit(1u32) && is_single_bit(2u32) && is_single_bit(4u32) && is_single_bit(8u32)) by (bit_vector);
    }

    /// Distinct variants share no bit of their numbers.
    pub proof fn lemma_flags_disjoint(a: DestinyProgressionRewardItemState, b: DestinyProgressionRewardItemState)
        ensures
            a != b ==> a.spec_value() & b.spec_value() == 0,
    {
        if a != b {
            DestinyProgressionRewardItemState::lemma_single_bit(a);
            DestinyProgressionRewardItemState::lemma_single_bit(b);
            DestinyProgressionRewardItemState::lemma_values_distinct(a, b);
            lemma_single_bits_disjoint(a.spec_value(), b.spec_value());
        }
    }
}

impl core::str::FromStr for DestinyProgressionRewardItemState {
    type Err = ParseEnumError;

    fn from_str(s: &str) -> (r: Result<DestinyProgressionRewardItemState, ParseEnumError>)
        ensures
            r matches Ok(v) ==> v.spec_name() == s@,
            r matches Err(e) ==> e.input@ == s@ && e.target@ == "DestinyProgressionRewardItemState"@ && (forall|v: DestinyProgressionRewardItemState| v.spec_name() != s@),
            forall|v: DestinyProgressionRewardItemState| #[trigger] v.spec_name() == s@ ==> r == Ok::<DestinyProgressionRewardItemState, ParseEnumError>(v),
    {
        DestinyProgressionRewardItemState::from_str(s)
    }
}

/// There are many Progressions in Destiny (think Character Level, or Reputation). These are the various "Scopes" of Progressions, which affect many things: * Where/if they are stored * How they are calculated * Where they can be used in other game logic
///
/// The number that stands for a variant on the wire is `value()`; an `as`
/// cast gives the variant's position in the list instead.
#[derive(Clone, Copy, Debug, PartialEq, Eq, Hash, Structural)]
pub enum DestinyProgressionScope {
    Account,
    Character,
    Clan,
    Item,
    ImplicitFromEquipment,
    Mapped,
    MappedAggregate,
    MappedStat,
    MappedUnlockValue,
}

impl DestinyProgressionScope {
    /// The name of the variant, the text that `from_str` reads.
    pub open spec fn spec_name(self) -> Seq<char> {
        match self {
            DestinyProgressionScope::Account => "Account"@,
            DestinyProgressionScope::Character => "Character"@,
            DestinyProgressionScope::Clan => "Clan"@,
            DestinyProgressionScope::Item => "Item"@,
            DestinyProgressionScope::ImplicitFromEquipment => "ImplicitFromEquipment"@,
            DestinyProgressionScope::Mapped => "Mapped"@,
            DestinyProgressionScope::MappedAggregate => "MappedAggregate"@,
            DestinyProgressionScope::MappedStat => "MappedStat"@,
            DestinyProgressionScope::MappedUnlockValue => "MappedUnlockValue"@,
        }
    }

    /// The number that stands for the variant on the wire.
    pub open spec fn spec_value(self) -> i32 {
        match self {
            DestinyProgressionScope::Account => 0,
            DestinyProgressionScope::Character => 1,
            DestinyProgressionScope::Clan => 2,
            DestinyProgressionScope::Item => 3,
            DestinyProgressionScope::ImplicitFromEquipment => 4,
            DestinyProgressionScope::Mapped => 5,
            DestinyProgressionScope::MappedAggregate => 6,
            DestinyProgressionScope::MappedStat => 7,
            DestinyProgressionScope::MappedUnlockValue => 8,
        }
    }

    /// The number that stands for the variant on the wire.
    pub fn value(&self) -> (v: i32)
        ensures
            v == self.spec_value(),
    {
        match self {
            DestinyProgressionScope::Account => 0,
            DestinyProgressionScope::Character => 1,
            DestinyProgressionScope::Clan => 2,
            DestinyProgressionScope::Item => 3,
            DestinyProgressionScope::ImplicitFromEquipment => 4,
            DestinyProgressionScope::Mapped => 5,
            DestinyProgressionScope::MappedAggregate => 6,
            DestinyProgressionScope::MappedStat => 7,
            DestinyProgressionScope::MappedUnlockValue => 8,
        }
    }

    /// The variant's number written in decimal.
    pub fn to_string(&self) -> (s: String)
        ensures
            s@ == decimal(self.spec_value() as nat),
    {
        let v = self.value();
        format_decimal(v as u32)
    }

    /// The variant named `s`; any other text is refused with an error that
    /// carries it.
    pub fn from_str(s: &str) -> (r: Result<DestinyProgressionScope, ParseEnumError>)
        ensures
            r matches Ok(v) ==> v.spec_name() == s@,
            r matches Err(e) ==> e.input@ == s@ && e.target@ == "DestinyProgressionScope"@ && (forall|v: DestinyProgressionScope| v.spec_name() != s@),
            forall|v: DestinyProgressionScope| #[trigger] v.spec_name() == s@ ==> r == Ok::<DestinyProgressionScope, ParseEnumError>(v),
    {
        let r = if str_eq(s, "Account") {
            Ok(DestinyProgressionScope::Account)
        } else if str_eq(s, "Character") {
            Ok(DestinyProgressionScope::Character)
        } else if str_eq(s, "Clan") {
            Ok(DestinyProgressionScope::Clan)
        } else if str_eq(s, "Item") {
            Ok(DestinyProgressionScope::Item)
        } else if str_eq(s, "ImplicitFromEquipment") {
            Ok(DestinyProgressionScope::ImplicitFromEquipment)
        } else if str_eq(s, "Mapped") {
            Ok(DestinyProgressionScope::Mapped)
        } else if str_eq(s, "MappedAggregate") {
            Ok(DestinyProgressionScope::MappedAggregate)
        } else if str_eq(s, "MappedStat") {
            Ok(DestinyProgressionScope::MappedStat)
        } else if str_eq(s, "MappedUnlockValue") {
            Ok(DestinyProgressionScope::MappedUnlockValue)
        } else {
            Err(ParseEnumError::new(s, "DestinyProgressionScope"))
        };
        proof {
            assert forall|v: DestinyProgressionScope| #[trigger] v.spec_name() == s@ implies r == Ok::<DestinyProgressionScope, ParseEnumError>(v) by {
                if let Ok(w) = r {
                    DestinyProgressionScope::lemma_names_distinct(v, w);
                }
            }
        }
        r
    }

    /// Distinct variants have distinct names.
    pub proof fn lemma_names_distinct(a: DestinyProgressionScope, b: DestinyProgressionScope)
        ensures
            a.spec_name() == b.spec_name() ==> a == b,
    {
        reveal_strlit("Account");
        assert("Account"@.len() == 7);
        reveal_strlit("Character");
        assert("Character"@.len() == 9);
        reveal_strlit("Clan");
        assert("Clan"@.len() == 4);
        reveal_strlit("Item");
        assert("Item"@.len() == 4);
        reveal_strlit("ImplicitFromEquipment");
        assert("ImplicitFromEquipment"@.len() == 21);
        reveal_strlit("Mapped");
        assert("Mapped"@.len() == 6);
        reveal_strlit("MappedAggregate");
        assert("MappedAggregate"@.len() == 15);
        reveal_strlit("MappedStat");
        assert("MappedStat"@.len() == 10);
        reveal_strlit("MappedUnlockValue");
        assert("MappedUnlockValue"@.len() == 17);
        assert("Clan"@[0] != "Item"@[0]);
    }

    /// Distinct variants have distinct numbers.
    pub proof fn lemma_values_distinct(a: DestinyProgressionScope, b: DestinyProgressionScope)
        ensures
            a.spec_value() == b.spec_value() ==> a == b,
    {
    }
}

impl core::str::FromStr for DestinyProgressionScope {
    type Err = ParseEnumError;

    fn from_str(s: &str) -> (r: Result<DestinyProgressionScope, ParseEnumError>)
        ensures
            r matches Ok(v) ==> v.spec_name() == s@,
            r matches Err(e) ==> e.input@ == s@ && e.target@ == "DestinyProgressionScope"@ && (forall|v: DestinyProgressionScope| v.spec_name() != s@),
            forall|v: DestinyProgressionScope| #[trigger] v.spec_name() == s@ ==> r == Ok::<DestinyProgressionScope, ParseEnumError>(v),
    {
        DestinyProgressionScope::from_str(s)
    }
}

/// If progression is earned, this determines whether the progression shows visual effects on the character or its item - or neither.
///
/// The number that stands for a variant on the wire is `value()`; an `as`
/// cast gives the variant's position in the list instead.
#[derive(Clone, Copy, Debug, PartialEq, Eq, Hash, Structural)]
pub enum DestinyProgressionStepDisplayEffect {
    /// The API calls this variant `None`; `from_str` reads that name.
    None_,
    Character,
    Item,
}

impl DestinyProgressionStepDisplayEffect {
    /// The name of the variant, the text that `from_str` reads.
    pub open spec fn spec_name(self) -> Seq<char> {
        match self {
            DestinyProgressionStepDisplayEffect::None_ => "None"@,
            DestinyProgressionStepDisplayEffect::Character => "Character"@,
            DestinyProgressionStepDisplayEffect::Item => "Item"@,
        }
    }

    /// The number that stands for the variant on the wire.
    pub open spec fn spec_value(self) -> i32 {
        match self {
            DestinyProgressionStepDisplayEffect::None_ => 0,
            DestinyProgressionStepDisplayEffect::Character => 1,
            DestinyProgressionStepDisplayEffect::Item => 2,
        }
    }

    /// The number that stands for the variant on the wire.
    pub fn value(&self) -> (v: i32)
        ensures
            v == self.spec_value(),
    {
        match self {
            DestinyProgressionStepDisplayEffect::None_ => 0,
            DestinyProgressionStepDisplayEffect::Character => 1,
            DestinyProgressionStepDisplayEffect::Item => 2,
        }
    }

    /// The variant's number written in decimal.
    pub fn to_string(&self) -> (s: String)
        ensures
            s@ == decimal(self.spec_value() as nat),
    {
        let v = self.value();
        format_decimal(v as u32)
    }

    /// The variant named `s`; any other text is refused with an error that
    /// carries it.
    pub fn from_str(s: &str) -> (r: Result<DestinyProgressionStepDisplayEffect, ParseEnumError>)
        ensures
            r matches Ok(v) ==> v.spec_name() == s@,
            r matches Err(e) ==> e.input@ == s@ && e.target@ == "DestinyProgressionStepDisplayEffect"@ && (forall|v: DestinyProgressionStepDisplayEffect| v.spec_name() != s@),
            forall|v: DestinyProgressionStepDisplayEffect| #[trigger] v.spec_name() == s@ ==> r == Ok::<DestinyProgressionStepDisplayEffect, ParseEnumError>(v),
    {
        let r = if str_eq(s, "None") {
            Ok(DestinyProgressionStepDisplayEffect::None_)
        } else if str_eq(s, "Character") {
            Ok(DestinyProgressionStepDisplayEffect::Character)
        } else if str_eq(s, "Item") {
            Ok(DestinyProgressionStepDisplayEffect::Item)
        } else {
            Err(ParseEnumError::new(s, "DestinyProgressionStepDisplayEffect"))
        };
        proof {
            assert forall|v: DestinyProgressionStepDisplayEffect| #[trigger] v.spec_name() == s@ implies r == Ok::<DestinyProgressionStepDisplayEffect, ParseEnumError>(v) by {
                if let Ok(w) = r {
                    DestinyProgressionStepDisplayEffect::lemma_names_distinct(v, w);
                }
            }
        }
        r
    }

    /// Distinct variants have distinct names.
    pub proof fn lemma_names_distinct(a: DestinyProgressionStepDisplayEffect, b: DestinyProgressionStepDisplayEffect)
        ensures
            a.spec_name() == b.spec_name() ==> a == b,
    {
        reveal_strlit("None");
        assert("None"@.len() == 4);
        reveal_strlit("Character");
        assert("Character"@.len() == 9);
        reveal_strlit("Item");
        assert("Item"@.len() == 4);
        assert("None"@[0] != "Item"@[0]);
    }

    /// Distinct variants have distinct numbers.
    pub proof fn lemma_values_distinct(a: DestinyProgressionStepDisplayEffect, b: DestinyProgressionStepDisplayEffect)
        ensures
            a.spec_value() == b.spec_value() ==> a == b,
    {
    }
}

impl core::str::FromStr for DestinyProgressionStepDisplayEffect {
    type Err = ParseEnumError;

    fn from_str(s: &str) -> (r: Result<DestinyProgressionStepDisplayEffect, ParseEnumError>)
        ensures
            r matches Ok(v) ==> v.spec_name() == s@,
            r matches Err(e) ==> e.input@ == s@ && e.target@ == "DestinyProgressionStepDisplayEffect"@ && (forall|v: DestinyProgressionStepDisplayEffect| v.spec_name() != s@),
            forall|v: DestinyProgressionStepDisplayEffect| #[trigger] v.spec_name() == s@ ==> r == Ok::<DestinyProgressionStepDisplayEffect, ParseEnumError>(v),
    {
        DestinyProgressionStepDisplayEffect::from_str(s)
    }
}

/// Represents the different kinds of acquisition behavior for progression reward items.
///
/// The number that stands for a variant on the wire is `value()`; an `as`
/// cast gives the variant's position in the list instead.
#[derive(Clone, Copy, Debug, PartialEq, Eq, Hash, Structural)]
pub enum DestinyProgressionRewardItemAcquisitionBehavior {
    Instant,
    PlayerClaimRequired,
}

impl DestinyProgressionRewardItemAcquisitionBehavior {
    /// The name of the variant, the text that `from_str` reads.
    pub open spec fn spec_name(self) -> Seq<char> {
        match self {
            DestinyProgressionRewardItemAcquisitionBehavior::Instant => "Instant"@,
            DestinyProgressionRewardItemAcquisitionBehavior::PlayerClaimRequired => "PlayerClaimRequired"@,
        }
    }

    /// The number that stands for the variant on the wire.
    pub open spec fn spec_value(self) -> i32 {
        match self {
            DestinyProgressionRewardItemAcquisitionBehavior::Instant => 0,
            DestinyProgressionRewardItemAcquisitionBehavior::PlayerClaimRequired => 1,
        }
    }

    /// The number that stands for the variant on the wire.
    pub fn value(&self) -> (v: i32)
        ensures
            v == self.spec_value(),
    {
        match self {
            DestinyProgressionRewardItemAcquisitionBehavior::Instant => 0,
            DestinyProgressionRewardItemAcquisitionBehavior::PlayerClaimRequired => 1,
        }
    }

    /// The variant's number written in decimal.
    pub fn to_string(&self) -> (s: String)
        ensures
            s@ == decimal(self.spec_value() as nat),
    {
        let v = self.value();
        format_decimal(v as u32)
    }

    /// The variant named `s`; any other text is refused with an error that
    /// carries it.
    pub fn from_str(s: &str) -> (r: Result<DestinyProgressionRewardItemAcquisitionBehavior, ParseEnumError>)
        ensures
            r matches Ok(v) ==> v.spec_name() == s@,
            r matches Err(e) ==> e.input@ == s@ && e.target@ == "DestinyProgressionRewardItemAcquisitionBehavior"@ && (forall|v: DestinyProgressionRewardItemAcquisitionBehavior| v.spec_name() != s@),
            forall|v: DestinyProgressionRewardItemAcquisitionBehavior| #[trigger] v.spec_name() == s@ ==> r == Ok::<DestinyProgressionRewardItemAcquisitionBehavior, ParseEnumError>(v),
    {
        let r = if str_eq(s, "Instant") {
            Ok(DestinyProgressionRewardItemAcquisitionBehavior::Instant)
        } else if str_eq(s, "PlayerClaimRequired") {
            Ok(DestinyProgressionRewardItemAcquisitionBehavior::PlayerClaimRequired)
        } else {
            Err(ParseEnumError::new(s, "DestinyProgressionRewardItemAcquisitionBehavior"))
        };
        proof {
            assert forall|v: DestinyProgressionRewardItemAcquisitionBehavior| #[trigger] v.spec_name() == s@ implies r == Ok::<DestinyProgressionRewardItemAcquisitionBehavior, ParseEnumError>(v) by {
                if let Ok(w) = r {
                    DestinyProgressionRewardItemAcquisitionBehavior::lemma_names_distinct(v, w);
                }
            }
        }
        r
    }

    /// Distinct variants have distinct names.
    pub proof fn lemma_names_distinct(a: DestinyProgressionRewardItemAcquisitionBehavior, b: DestinyProgressionRewardItemAcquisitionBehavior)
        ensures
            a.spec_name() == b.spec_name() ==> a == b,
    {
        reveal_strlit("Instant");
        assert("Instant"@.len() == 7);
        reveal_strlit("PlayerClaimRequired");
        assert("PlayerClaimRequired"@.len() == 19);
    }

    /// Distinct variants have distinct numbers.
    pub proof fn lemma_values_distinct(a: DestinyProgressionRewardItemAcquisitionBehavior, b: DestinyProgressionRewardItemAcquisitionBehavior)
        ensures
            a.spec_value() == b.spec_value() ==> a == b,
    {
    }
}

impl core::str::FromStr for DestinyProgressionRewardItemAcquisitionBehavior {
    type Err = ParseEnumError;

    fn from_str(s: &str) -> (r: Result<DestinyProgressionRewardItemAcquisitionBehavior, ParseEnumError>)
        ensures
            r matches Ok(v) ==> v.spec_name() == s@,
            r matches Err(e) ==> e.input@ == s@ && e.target@ == "DestinyProgressionRewardItemAcquisitionBehavior"@ && (forall|v: DestinyProgressionRewardItemAcquisitionBehavior| v.spec_name() != s@),
            forall|v: DestinyProgressionRewardItemAcquisitionBehavior| #[trigger] v.spec_name() == s@ ==> r == Ok::<DestinyProgressionRewardItemAcquisitionBehavior, ParseEnumError>(v),
    {
        DestinyProgressionRewardItemAcquisitionBehavior::from_str(s)
    }
}

} // verus!
