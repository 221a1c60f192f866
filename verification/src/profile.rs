//! Characters, profiles and the components that a profile request asks for.
use vstd::prelude::*;
use crate::error::ParseEnumError;
use crate::text::{decimal, format_decimal, str_eq};
use crate::flags::{is_single_bit, lemma_single_bits_disjoint};

verus! {

/// The number that stands for a variant on the wire is `value()`; an `as`
/// cast gives the variant's position in the list instead.
#[derive(Clone, Copy, Debug, PartialEq, Eq, Hash, Structural)]
pub enum DestinyClass {
    Titan,
    Hunter,
    Warlock,
    Unknown,
}

impl DestinyClass {
    /// The name of the variant, the text that `from_str` reads.
    pub open spec fn spec_name(self) -> Seq<char> {
        match self {
            DestinyClass::Titan => "Titan"@,
            DestinyClass::Hunter => "Hunter"@,
            DestinyClass::Warlock => "Warlock"@,
            DestinyClass::Unknown => "Unknown"@,
        }
    }

    /// The number that stands for the variant on the wire.
    pub open spec fn spec_value(self) -> i32 {
        match self {
            DestinyClass::Titan => 0,
            DestinyClass::Hunter => 1,
            DestinyClass::Warlock => 2,
            DestinyClass::Unknown => 3,
        }
    }

    /// The number that stands for the variant on the wire.
    pub fn value(&self) -> (v: i32)
        ensures
            v == self.spec_value(),
    {
        match self {
            DestinyClass::Titan => 0,
            DestinyClass::Hunter => 1,
            DestinyClass::Warlock => 2,
            DestinyClass::Unknown => 3,
        }
    }

    /// The variant's number written in decimal.
    pub fn to_string(&self) -> (s: String)
        ensures
            s@ == decimal(self.spec_value() as nat),
    {
        let v = self.value();
        format_decimal(v as u32)
    }

    /// The variant named `s`; any other text is refused with an error that
    /// carries it.
    pub fn from_str(s: &str) -> (r: Result<DestinyClass, ParseEnumError>)
        ensures
            r matches Ok(v) ==> v.spec_name() == s@,
            r matches Err(e) ==> e.input@ == s@ && e.target@ == "DestinyClass"@ && (forall|v: DestinyClass| v.spec_name() != s@),
            forall|v: DestinyClass| #[trigger] v.spec_name() == s@ ==> r == Ok::<DestinyClass, ParseEnumError>(v),
    {
        let r = if str_eq(s, "Titan") {
            Ok(DestinyClass::Titan)
        } else if str_eq(s, "Hunter") {
            Ok(DestinyClass::Hunter)
        } else if str_eq(s, "Warlock") {
            Ok(DestinyClass::Warlock)
        } else if str_eq(s, "Unknown") {
            Ok(DestinyClass::Unknown)
        } else {
            Err(ParseEnumError::new(s, "DestinyClass"))
        };
        proof {
            assert forall|v: DestinyClass| #[trigger] v.spec_name() == s@ implies r == Ok::<DestinyClass, ParseEnumError>(v) by {
                if let Ok(w) = r {
                    DestinyClass::lemma_names_distinct(v, w);
                }
            }
        }
        r
    }

    /// Distinct variants have distinct names.
    pub proof fn lemma_names_distinct(a: DestinyClass, b: DestinyClass)
        ensures
            a.spec_name() == b.spec_name() ==> a == b,
    {
        reveal_strlit("Titan");
        assert("Titan"@.len() == 5);
        reveal_strlit("Hunter");
        assert("Hunter"@.len() == 6);
        reveal_strlit("Warlock");
        assert("Warlock"@.len() == 7);
        reveal_strlit("Unknown");
        assert("Unknown"@.len() == 7);
        assert("Warlock"@[0] != "Unknown"@[0]);
    }

    /// Distinct variants have distinct numbers.
    pub proof fn lemma_values_distinct(a: DestinyClass, b: DestinyClass)
        ensures
            a.spec_value() == b.spec_value() ==> a == b,
    {
    }
}

impl core::str::FromStr for DestinyClass {
    type Err = ParseEnumError;

    fn from_str(s: &str) -> (r: Result<DestinyClass, ParseEnumError>)
        ensures
            r matches Ok(v) ==> v.spec_name() == s@,
            r matches Err(e) ==> e.input@ == s@ && e.target@ == "DestinyClass"@ && (forall|v: DestinyClass| v.spec_name() != s@),
            forall|v: DestinyClass| #[trigger] v.spec_name() == s@ ==> r == Ok::<DestinyClass, ParseEnumError>(v),
    {
        DestinyClass::from_str(s)
    }
}

/// The number that stands for a variant on the wire is `value()`; an `as`
/// cast gives the variant's position in the list instead.
#[derive(Clone, Copy, Debug, PartialEq, Eq, Hash, Structural)]
pub enum DestinyGender {
    Male,
    Female,
    Unknown,
}

impl DestinyGender {
    /// The name of the variant, the text that `from_str` reads.
    pub open spec fn spec_name(self) -> Seq<char> {
        match self {
            DestinyGender::Male => "Male"@,
            DestinyGender::Female => "Female"@,
            DestinyGender::Unknown => "Unknown"@,
        }
    }

    /// The number that stands for the variant on the wire.
    pub open spec fn spec_value(self) -> i32 {
        match self {
            DestinyGender::Male => 0,
            DestinyGender::Female => 1,
            DestinyGender::Unknown => 2,
        }
    }

    /// The number that stands for the variant on the wire.
    pub fn value(&self) -> (v: i32)
        ensures
            v == self.spec_value(),
    {
        match self {
            DestinyGender::Male => 0,
            DestinyGender::Female => 1,
            DestinyGender::Unknown => 2,
        }
    }

    /// The variant's number written in decimal.
    pub fn to_string(&self) -> (s: String)
        ensures
            s@ == decimal(self.spec_value() as nat),
    {
        let v = self.value();
        format_decimal(v as u32)
    }

    /// The variant named `s`; any other text is refused with an error that
    /// carries it.
    pub fn from_str(s: &str) -> (r: Result<DestinyGender, ParseEnumError>)
        ensures
            r matches Ok(v) ==> v.spec_name() == s@,
            r matches Err(e) ==> e.input@ == s@ && e.target@ == "DestinyGender"@ && (forall|v: DestinyGender| v.spec_name() != s@),
            forall|v: DestinyGender| #[trigger] v.spec_name() == s@ ==> r == Ok::<DestinyGender, ParseEnumError>(v),
    {
        let r = if str_eq(s, "Male") {
            Ok(DestinyGender::Male)
        } else if str_eq(s, "Female") {
            Ok(DestinyGender::Female)
        } else if str_eq(s, "Unknown") {
            Ok(DestinyGender::Unknown)
        } else {
            Err(ParseEnumError::new(s, "DestinyGender"))
        };
        proof {
            assert forall|v: DestinyGender| #[trigger] v.spec_name() == s@ implies r == Ok::<DestinyGender, ParseEnumError>(v) by {
                if let Ok(w) = r {
                    DestinyGender::lemma_names_distinct(v, w);
                }
            }
        }
        r
    }

    /// Distinct variants have distinct names.
    pub proof fn lemma_names_distinct(a: DestinyGender, b: DestinyGender)
        ensures
            a.spec_name() == b.spec_name() ==> a == b,
    {
        reveal_strlit("Male");
        assert("Male"@.len() == 4);
        reveal_strlit("Female");
        assert("Female"@.len() == 6);
        reveal_strlit("Unknown");
        assert("Unknown"@.len() == 7);
    }

    /// Distinct variants have distinct numbers.
    pub proof fn lemma_values_distinct(a: DestinyGender, b: DestinyGender)
        ensures
            a.spec_value() == b.spec_value() ==> a == b,
    {
    }
}

impl core::str::FromStr for DestinyGender {
    type Err = ParseEnumError;

    fn from_str(s: &str) -> (r: Result<DestinyGender, ParseEnumError>)
        ensures
            r matches Ok(v) ==> v.spec_name() == s@,
            r matches Err(e) ==> e.input@ == s@ && e.target@ == "DestinyGender"@ && (forall|v: DestinyGender| v.spec_name() != s@),
            forall|v: DestinyGender| #[trigger] v.spec_name() == s@ ==> r == Ok::<DestinyGender, ParseEnumError>(v),
    {
        DestinyGender::from_str(s)
    }
}

/// The number that stands for a variant on the wire is `value()`; an `as`
/// cast gives the variant's position in the list instead.
#[derive(Clone, Copy, Debug, PartialEq, Eq, Hash, Structural)]
pub enum DestinyRace {
    Human,
    Awoken,
    Exo,
    Unknown,
}

impl DestinyRace {
    /// The name of the variant, the text that `from_str` reads.
    pub open spec fn spec_name(self) -> Seq<char> {
        match self {
            DestinyRace::Human => "Human"@,
            DestinyRace::Awoken => "Awoken"@,
            DestinyRace::Exo => "Exo"@,
            DestinyRace::Unknown => "Unknown"@,
        }
    }

    /// The number that stands for the variant on the wire.
    pub open spec fn spec_value(self) -> i32 {
        match self {
            DestinyRace::Human => 0,
            DestinyRace::Awoken => 1,
            DestinyRace::Exo => 2,
            DestinyRace::Unknown => 3,
        }
    }

    /// The number that stands for the variant on the wire.
    pub fn value(&self) -> (v: i32)
        ensures
            v == self.spec_value(),
    {
        match self {
            DestinyRace::Human => 0,
            DestinyRace::Awoken => 1,
            DestinyRace::Exo => 2,
            DestinyRace::Unknown => 3,
        }
    }

    /// The variant's number written in decimal.
    pub fn to_string(&self) -> (s: String)
        ensures
            s@ == decimal(self.spec_value() as nat),
    {
        let v = self.value();
        format_decimal(v as u32)
    }

    /// The variant named `s`; any other text is refused with an error that
    /// carries it.
    pub fn from_str(s: &str) -> (r: Result<DestinyRace, ParseEnumError>)
        ensures
            r matches Ok(v) ==> v.spec_name() == s@,
            r matches Err(e) ==> e.input@ == s@ && e.target@ == "DestinyRace"@ && (forall|v: DestinyRace| v.spec_name() != s@),
            forall|v: DestinyRace| #[trigger] v.spec_name() == s@ ==> r == Ok::<DestinyRace, ParseEnumError>(v),
    {
        let r = if str_eq(s, "Human") {
            Ok(DestinyRace::Human)
        } else if str_eq(s, "Awoken") {
            Ok(DestinyRace::Awoken)
        } else if str_eq(s, "Exo") {
            Ok(DestinyRace::Exo)
        } else if str_eq(s, "Unknown") {
            Ok(DestinyRace::Unknown)
        } else {
            Err(ParseEnumError::new(s, "DestinyRace"))
        };
        proof {
            assert forall|v: DestinyRace| #[trigger] v.spec_name() == s@ implies r == Ok::<DestinyRace, ParseEnumError>(v) by {
                if let Ok(w) = r {
                    DestinyRace::lemma_names_distinct(v, w);
                }
            }
        }
        r
    }

    /// Distinct variants have distinct names.
    pub proof fn lemma_names_distinct(a: DestinyRace, b: DestinyRace)
        ensures
            a.spec_name() == b.spec_name() ==> a == b,
    {
        reveal_strlit("Human");
        assert("Human"@.len() == 5);
        reveal_strlit("Awoken");
        assert("Awoken"@.len() == 6);
        reveal_strlit("Exo");
        assert("Exo"@.len() == 3);
        reveal_strlit("Unknown");
        assert("Unknown"@.len() == 7);
    }

    /// Distinct variants have distinct numbers.
    pub proof fn lemma_values_distinct(a: DestinyRace, b: DestinyRace)
        ensures
            a.spec_value() == b.spec_value() ==> a == b,
    {
    }
}

impl core::str::FromStr for DestinyRace {
    type Err = ParseEnumError;

    fn from_str(s: &str) -> (r: Result<DestinyRace, ParseEnumError>)
        ensures
            r matches Ok(v) ==> v.spec_name() == s@,
            r matches Err(e) ==> e.input@ == s@ && e.target@ == "DestinyRace"@ && (forall|v: DestinyRace| v.spec_name() != s@),
            forall|v: DestinyRace| #[trigger] v.spec_name() == s@ ==> r == Ok::<DestinyRace, ParseEnumError>(v),
    {
        DestinyRace::from_str(s)
    }
}

/// A flags enumeration/bitmask indicating the versions of the game that a given user has purchased.
///
/// The number that stands for a variant on the wire is `value()`; an `as`
/// cast gives the variant's position in the list instead.
///
/// Each variant is one flag: its number has exactly one bit set.
#[derive(Clone, Copy, Debug, PartialEq, Eq, Hash, Structural)]
pub enum DestinyGameVersions {
    Destiny2,
    DLC1,
    DLC2,
    Forsaken,
    YearTwoAnnualPass,
    Shadowkeep,
    BeyondLight,
    Anniversary30th,
    TheWitchQueen,
    Lightfall,
}

impl DestinyGameVersions {
    /// The name of the variant, the text that `from_str` reads.
    pub open spec fn spec_name(self) -> Seq<char> {
        match self {
            DestinyGameVersions::Destiny2 => "Destiny2"@,
            DestinyGameVersions::DLC1 => "DLC1"@,
            DestinyGameVersions::DLC2 => "DLC2"@,
            DestinyGameVersions::Forsaken => "Forsaken"@,
            DestinyGameVersions::YearTwoAnnualPass => "YearTwoAnnualPass"@,
            DestinyGameVersions::Shadowkeep => "Shadowkeep"@,
            DestinyGameVersions::BeyondLight => "BeyondLight"@,
            DestinyGameVersions::Anniversary30th => "Anniversary30th"@,
            DestinyGameVersions::TheWitchQueen => "TheWitchQueen"@,
            DestinyGameVersions::Lightfall => "Lightfall"@,
        }
    }

    /// The number that stands for the variant on the wire.
    pub open spec fn spec_value(self) -> u32 {
        match self {
            DestinyGameVersions::Destiny2 => 1,
            DestinyGameVersions::DLC1 => 2,
            DestinyGameVersions::DLC2 => 4,
            DestinyGameVersions::Forsaken => 8,
            DestinyGameVersions::YearTwoAnnualPass => 16,
            DestinyGameVersions::Shadowkeep => 32,
            DestinyGameVersions::BeyondLight => 64,
            DestinyGameVersions::Anniversary30th => 128,
            DestinyGameVersions::TheWitchQueen => 256,
            DestinyGameVersions::Lightfall => 512,
        }
    }

    /// The number that stands for the variant on the wire.
    pub fn value(&self) -> (v: u32)
        ensures
            v == self.spec_value(),
    {
        match self {
            DestinyGameVersions::Destiny2 => 1,
            DestinyGameVersions::DLC1 => 2,
            DestinyGameVersions::DLC2 => 4,
            DestinyGameVersions::Forsaken => 8,
            DestinyGameVersions::YearTwoAnnualPass => 16,
            DestinyGameVersions::Shadowkeep => 32,
            DestinyGameVersions::BeyondLight => 64,
            DestinyGameVersions::Anniversary30th => 128,
            DestinyGameVersions::TheWitchQueen => 256,
            DestinyGameVersions::Lightfall => 512,
        }
    }

    /// The variant's number written in decimal.
    pub fn to_string(&self) -> (s: String)
        ensures
            s@ == decimal(self.spec_value() as nat),
    {
        format_decimal(self.value())
    }

    /// The variant named `s`; any other text is refused with an error that
    /// carries it.
    pub fn from_str(s: &str) -> (r: Result<DestinyGameVersions, ParseEnumError>)
        ensures
            r matches Ok(v) ==> v.spec_name() == s@,
            r matches Err(e) ==> e.input@ == s@ && e.target@ == "DestinyGameVersions"@ && (forall|v: DestinyGameVersions| v.spec_name() != s@),
            forall|v: DestinyGameVersions| #[trigger] v.spec_name() == s@ ==> r == Ok::<DestinyGameVersions, ParseEnumError>(v),
    {
        let r = if str_eq(s, "Destiny2") {
            Ok(DestinyGameVersions::Destiny2)
        } else if str_eq(s, "DLC1") {
            Ok(DestinyGameVersions::DLC1)
        } else if str_eq(s, "DLC2") {
            Ok(DestinyGameVersions::DLC2)
        } else if str_eq(s, "Forsaken") {
            Ok(DestinyGameVersions::Forsaken)
        } else if str_eq(s, "YearTwoAnnualPass") {
            Ok(DestinyGameVersions::YearTwoAnnualPass)
        } else if str_eq(s, "Shadowkeep") {
            Ok(DestinyGameVersions::Shadowkeep)
        } else if str_eq(s, "BeyondLight") {
            Ok(DestinyGameVersions::BeyondLight)
        } else if str_eq(s, "Anniversary30th") {
            Ok(DestinyGameVersions::Anniversary30th)
        } else if str_eq(s, "TheWitchQueen") {
            Ok(DestinyGameVersions::TheWitchQueen)
        } else if str_eq(s, "Lightfall") {
            Ok(DestinyGameVersions::Lightfall)
        } else {
            Err(ParseEnumError::new(s, "DestinyGameVersions"))
        };
        proof {
            assert forall|v: DestinyGameVersions| #[trigger] v.spec_name() == s@ implies r == Ok::<DestinyGameVersions, ParseEnumError>(v) by {
                if let Ok(w) = r {
                    DestinyGameVersions::lemma_names_distinct(v, w);
                }
            }
        }
        r
    }

    /// Distinct variants have distinct names.
    pub proof fn lemma_names_distinct(a: DestinyGameVersions, b: DestinyGameVersions)
        ensures
            a.spec_name() == b.spec_name() ==> a == b,
    {
        reveal_strlit("Destiny2");
        assert("Destiny2"@.len() == 8);
        reveal_strlit("DLC1");
        assert("DLC1"@.len() == 4);
        reveal_strlit("DLC2");
        assert("DLC2"@.len() == 4);
        reveal_strlit("Forsaken");
        assert("Forsaken"@.len() == 8);
        reveal_strlit("YearTwoAnnualPass");
        assert("YearTwoAnnualPass"@.len() == 17);
        reveal_strlit("Shadowkeep");
        assert("Shadowkeep"@.len() == 10);
        reveal_strlit("BeyondLight");
        assert("BeyondLight"@.len() == 11);
        reveal_strlit("Anniversary30th");
        assert("Anniversary30th"@.len() == 15);
        reveal_strlit("TheWitchQueen");
        assert("TheWitchQueen"@.len() == 13);
        reveal_strlit("Lightfall");
        assert("Lightfall"@.len() == 9);
        assert("Destiny2"@[0] != "Forsaken"@[0]);
        assert("DLC1"@[3] != "DLC2"@[3]);
    }

    /// Distinct variants have distinct numbers.
    pub proof fn lemma_values_distinct(a: DestinyGameVersions, b: DestinyGameVersions)
        ensures
            a.spec_value() == b.spec_value() ==> a == b,
    {
    }

    /// The number of every variant has exactly one bit set.
    pub proof fn lemma_single_bit(v: DestinyGameVersions)
        ensures
            is_single_bit(v.spec_value()),
    {
        assert(is_single_bit(1u32) && is_single_bit(2u32) && is_single_bit(4u32) && is_single_bit(8u32) && is_single_bit(16u32) && is_single_bit(32u32) && is_single_bit(64u32) && is_single_bit(128u32) && is_single_bit(256u32) && is_single_bit(512u32)) by (bit_vector);
    }

    /// Distinct variants share no bit of their numbers.
    pub proof fn lemma_flags_disjoint(a: DestinyGameVersions, b: DestinyGameVersions)
        ensures
            a != b ==> a.spec_value() & b.spec_value() == 0,
    {
        if a != b {
            DestinyGameVersions::lemma_single_bit(a);
            DestinyGameVersions::lemma_single_bit(b);
            DestinyGameVersions::lemma_values_distinct(a, b);
            lemma_single_bits_disjoint(a.spec_value(), b.spec_value());
        }
    }
}

impl core::str::FromStr for DestinyGameVersions {
    type Err = ParseEnumError;

    fn from_str(s: &str) -> (r: Result<DestinyGameVersions, ParseEnumError>)
        ensures
            r matches Ok(v) ==> v.spec_name() == s@,
            r matches Err(e) ==> e.input@ == s@ && e.target@ == "DestinyGameVersions"@ && (forall|v: DestinyGameVersions| v.spec_name() != s@),
            forall|v: DestinyGameVersions| #[trigger] v.spec_name() == s@ ==> r == Ok::<DestinyGameVersions, ParseEnumError>(v),
    {
        DestinyGameVersions::from_str(s)
    }
}

/// Represents the possible components that can be returned from Destiny "Get" calls such as GetProfile, GetCharacter, GetVendor etc...
/// When making one of these requests, you will pass one or more of these components as a comma separated list in the "?components=" querystring parameter. For instance, if you want baseline Profile data, Character Data, and character progressions, you would pass "?components=Profiles,Characters,CharacterProgressions" You may use either the numerical or string values.
///
/// The number that stands for a variant on the wire is `value()`; an `as`
/// cast gives the variant's position in the list instead.
#[derive(Clone, Copy, Debug, PartialEq, Eq, Hash, Structural)]
pub enum DestinyComponentType {
    /// The API calls this variant `None`; `from_str` reads that name.
    None_,
    /// Profiles is the most basic component, only relevant when calling GetProfile. This returns basic information about the profile, which is almost nothing: a list of characterIds, some information about the last time you logged in, and that most sobering statistic: how long you've played.
    Profiles,
    /// Only applicable for GetProfile, this will return information about receipts for refundable vendor items.
    VendorReceipts,
    /// Asking for this will get you the profile-level inventories, such as your Vault buckets (yeah, the Vault is really inventory buckets located on your Profile)
    ProfileInventories,
    /// This will get you a summary of items on your Profile that we consider to be "currencies", such as Glimmer. I mean, if there's Glimmer in Destiny 2. I didn't say there was Glimmer.
    ProfileCurrencies,
    /// This will get you any progression-related information that exists on a Profile-wide level, across all characters.
    ProfileProgression,
    /// This will get you information about the silver that this profile has on every platform on which it plays.
    /// You may only request this component for the logged in user's Profile, and will not recieve it if you request it for another Profile.
    PlatformSilver,
    /// This will get you summary info about each of the characters in the profile.
    Characters,
    /// This will get you information about any non-equipped items on the character or character(s) in question, if you're allowed to see it. You have to either be authenticated as that user, or that user must allow anonymous viewing of their non-equipped items in Bungie.Net settings to actually get results.
    CharacterInventories,
    /// This will get you information about the progression (faction, experience, etc... "levels") relevant to each character, if you are the currently authenticated user or the user has elected to allow anonymous viewing of its progression info.
    CharacterProgressions,
    /// This will get you just enough information to be able to render the character in 3D if you have written a 3D rendering library for Destiny Characters, or "borrowed" ours. It's okay, I won't tell anyone if you're using it. I'm no snitch. (actually, we don't care if you use it - go to town)
    CharacterRenderData,
    /// This will return info about activities that a user can see and gating on it, if you are the currently authenticated user or the user has elected to allow anonymous viewing of its progression info. Note that the data returned by this can be unfortunately problematic and relatively unreliable in some cases. We'll eventually work on making it more consistently reliable.
    CharacterActivities,
    /// This will return info about the equipped items on the character(s). Everyone can see this.
    CharacterEquipment,
    /// This will return basic info about instanced items - whether they can be equipped, their tracked status, and some info commonly needed in many places (current damage type, primary stat value, etc)
    ItemInstances,
    /// Items can have Objectives (DestinyObjectiveDefinition) bound to them. If they do, this will return info for items that have such bound objectives.
    ItemObjectives,
    /// Items can have perks (DestinyPerkDefinition). If they do, this will return info for what perks are active on items.
    ItemPerks,
    /// If you just want to render the weapon, this is just enough info to do that rendering.
    ItemRenderData,
    /// Items can have stats, like rate of fire. Asking for this component will return requested item's stats if they have stats.
    ItemStats,
    /// Items can have sockets, where plugs can be inserted. Asking for this component will return all info relevant to the sockets on items that have them.
    ItemSockets,
    /// Items can have talent grids, though that matters a lot less frequently than it used to. Asking for this component will return all relevant info about activated Nodes and Steps on this talent grid, like the good ol' days.
    ItemTalentGrids,
    /// Items that *aren't* instanced still have important information you need to know: how much of it you have, the itemHash so you can look up their DestinyInventoryItemDefinition, whether they're locked, etc... Both instanced and non-instanced items will have these properties. You will get this automatically with Inventory components - you only need to pass this when calling GetItem on a specific item.
    ItemCommonData,
    /// Items that are "Plugs" can be inserted into sockets. This returns statuses about those plugs and why they can/can't be inserted. I hear you giggling, there's nothing funny about inserting plugs. Get your head out of the gutter and pay attention!
    ItemPlugStates,
    /// Sometimes, plugs have objectives on them. This data can get really large, so we split it into its own component. Please, don't grab it unless you need it.
    ItemPlugObjectives,
    /// Sometimes, designers create thousands of reusable plugs and suddenly your response sizes are almost 3MB, and something has to give.
    /// Reusable Plugs were split off as their own component, away from ItemSockets, as a result of the Plug changes in Shadowkeep that made plug data infeasibly large for the most common use cases.
    /// Request this component if and only if you need to know what plugs *could* be inserted into a socket, and need to know it before "drilling" into the details of an item in your application (for instance, if you're doing some sort of interesting sorting or aggregation based on available plugs.
    /// When you get this, you will also need to combine it with "Plug Sets" data if you want a full picture of all of the available plugs: this component will only return plugs that have state data that is per-item. See Plug Sets for available plugs that have Character, Profile, or no state-specific restrictions.
    ItemReusablePlugs,
    /// When obtaining vendor information, this will return summary information about the Vendor or Vendors being returned.
    Vendors,
    /// When obtaining vendor information, this will return information about the categories of items provided by the Vendor.
    VendorCategories,
    /// When obtaining vendor information, this will return the information about items being sold by the Vendor.
    VendorSales,
    /// Asking for this component will return you the account's Kiosk statuses: that is, what items have been filled out/acquired. But only if you are the currently authenticated user or the user has elected to allow anonymous viewing of its progression info.
    Kiosks,
    /// A "shortcut" component that will give you all of the item hashes/quantities of items that the requested character can use to determine if an action (purchasing, socket insertion) has the required currency. (recall that all currencies are just items, and that some vendor purchases require items that you might not traditionally consider to be a "currency", like plugs/mods!)
    CurrencyLookups,
    /// Returns summary status information about all "Presentation Nodes". See DestinyPresentationNodeDefinition for more details, but the gist is that these are entities used by the game UI to bucket Collectibles and Records into a hierarchy of categories. You may ask for and use this data if you want to perform similar bucketing in your own UI: or you can skip it and roll your own.
    PresentationNodes,
    /// Returns summary status information about all "Collectibles". These are records of what items you've discovered while playing Destiny, and some other basic information. For detailed information, you will have to call a separate endpoint devoted to the purpose.
    Collectibles,
    /// Returns summary status information about all "Records" (also known in the game as "Triumphs". I know, it's confusing because there's also "Moments of Triumph" that will themselves be represented as "Triumphs.")
    Records,
    /// Returns information that Bungie considers to be "Transitory": data that may change too frequently or come from a non-authoritative source such that we don't consider the data to be fully trustworthy, but that might prove useful for some limited use cases. We can provide no guarantee of timeliness nor consistency for this data: buyer beware with the Transitory component.
    Transitory,
    /// Returns summary status information about all "Metrics" (also known in the game as "Stat Trackers").
    Metrics,
    /// Returns a mapping of localized string variable hashes to values, on a per-account or per-character basis.
    StringVariables,
    /// Returns summary status information about all "Craftables" aka crafting recipe items.
    Craftables,
}

impl DestinyComponentType {
    /// The name of the variant, the text that `from_str` reads.
    pub open spec fn spec_name(self) -> Seq<char> {
        match self {
            DestinyComponentType::None_ => "None"@,
            DestinyComponentType::Profiles => "Profiles"@,
            DestinyComponentType::VendorReceipts => "VendorReceipts"@,
            DestinyComponentType::ProfileInventories => "ProfileInventories"@,
            DestinyComponentType::ProfileCurrencies => "ProfileCurrencies"@,
            DestinyComponentType::ProfileProgression => "ProfileProgression"@,
            DestinyComponentType::PlatformSilver => "PlatformSilver"@,
            DestinyComponentType::Characters => "Characters"@,
            DestinyComponentType::CharacterInventories => "CharacterInventories"@,
            DestinyComponentType::CharacterProgressions => "CharacterProgressions"@,
            DestinyComponentType::CharacterRenderData => "CharacterRenderData"@,
            DestinyComponentType::CharacterActivities => "CharacterActivities"@,
            DestinyComponentType::CharacterEquipment => "CharacterEquipment"@,
            DestinyComponentType::ItemInstances => "ItemInstances"@,
            DestinyComponentType::ItemObjectives => "ItemObjectives"@,
            DestinyComponentType::ItemPerks => "ItemPerks"@,
            DestinyComponentType::ItemRenderData => "ItemRenderData"@,
            DestinyComponentType::ItemStats => "ItemStats"@,
            DestinyComponentType::ItemSockets => "ItemSockets"@,
            DestinyComponentType::ItemTalentGrids => "ItemTalentGrids"@,
            DestinyComponentType::ItemCommonData => "ItemCommonData"@,
            DestinyComponentType::ItemPlugStates => "ItemPlugStates"@,
            DestinyComponentType::ItemPlugObjectives => "ItemPlugObjectives"@,
            DestinyComponentType::ItemReusablePlugs => "ItemReusablePlugs"@,
            DestinyComponentType::Vendors => "Vendors"@,
            DestinyComponentType::VendorCategories => "VendorCategories"@,
            DestinyComponentType::VendorSales => "VendorSales"@,
            DestinyComponentType::Kiosks => "Kiosks"@,
            DestinyComponentType::CurrencyLookups => "CurrencyLookups"@,
            DestinyComponentType::PresentationNodes => "PresentationNodes"@,
            DestinyComponentType::Collectibles => "Collectibles"@,
            DestinyComponentType::Records => "Records"@,
            DestinyComponentType::Transitory => "Transitory"@,
            DestinyComponentType::Metrics => "Metrics"@,
            DestinyComponentType::StringVariables => "StringVariables"@,
            DestinyComponentType::Craftables => "Craftables"@,
        }
    }

    /// The number that stands for the variant on the wire.
    pub open spec fn spec_value(self) -> i32 {
        match self {
            DestinyComponentType::None_ => 0,
            DestinyComponentType::Profiles => 100,
            DestinyComponentType::VendorReceipts => 101,
            DestinyComponentType::ProfileInventories => 102,
            DestinyComponentType::ProfileCurrencies => 103,
            DestinyComponentType::ProfileProgression => 104,
            DestinyComponentType::PlatformSilver => 105,
            DestinyComponentType::Characters => 200,
            DestinyComponentType::CharacterInventories => 201,
            DestinyComponentType::CharacterProgressions => 202,
            DestinyComponentType::CharacterRenderData => 203,
            DestinyComponentType::CharacterActivities => 204,
            DestinyComponentType::CharacterEquipment => 205,
            DestinyComponentType::ItemInstances => 300,
            DestinyComponentType::ItemObjectives => 301,
            DestinyComponentType::ItemPerks => 302,
            DestinyComponentType::ItemRenderData => 303,
            DestinyComponentType::ItemStats => 304,
            DestinyComponentType::ItemSockets => 305,
            DestinyComponentType::ItemTalentGrids => 306,
            DestinyComponentType::ItemCommonData => 307,
            DestinyComponentType::ItemPlugStates => 308,
            DestinyComponentType::ItemPlugObjectives => 309,
            DestinyComponentType::ItemReusablePlugs => 310,
            DestinyComponentType::Vendors => 400,
            DestinyComponentType::VendorCategories => 401,
            DestinyComponentType::VendorSales => 402,
            DestinyComponentType::Kiosks => 500,
            DestinyComponentType::CurrencyLookups => 600,
            DestinyComponentType::PresentationNodes => 700,
            DestinyComponentType::Collectibles => 800,
            DestinyComponentType::Records => 900,
            DestinyComponentType::Transitory => 1000,
            DestinyComponentType::Metrics => 1100,
            DestinyComponentType::StringVariables => 1200,
            DestinyComponentType::Craftables => 1300,
        }
    }

    /// The number that stands for the variant on the wire.
    pub fn value(&self) -> (v: i32)
        ensures
            v == self.spec_value(),
    {
        match self {
            DestinyComponentType::None_ => 0,
            DestinyComponentType::Profiles => 100,
            DestinyComponentType::VendorReceipts => 101,
            DestinyComponentType::ProfileInventories => 102,
            DestinyComponentType::ProfileCurrencies => 103,
            DestinyComponentType::ProfileProgression => 104,
            DestinyComponentType::PlatformSilver => 105,
            DestinyComponentType::Characters => 200,
            DestinyComponentType::CharacterInventories => 201,
            DestinyComponentType::CharacterProgressions => 202,
            DestinyComponentType::CharacterRenderData => 203,
            DestinyComponentType::CharacterActivities => 204,
            DestinyComponentType::CharacterEquipment => 205,
            DestinyComponentType::ItemInstances => 300,
            DestinyComponentType::ItemObjectives => 301,
            DestinyComponentType::ItemPerks => 302,
            DestinyComponentType::ItemRenderData => 303,
            DestinyComponentType::ItemStats => 304,
            DestinyComponentType::ItemSockets => 305,
            DestinyComponentType::ItemTalentGrids => 306,
            DestinyComponentType::ItemCommonData => 307,
            DestinyComponentType::ItemPlugStates => 308,
            DestinyComponentType::ItemPlugObjectives => 309,
            DestinyComponentType::ItemReusablePlugs => 310,
            DestinyComponentType::Vendors => 400,
            DestinyComponentType::VendorCategories => 401,
            DestinyComponentType::VendorSales => 402,
            DestinyComponentType::Kiosks => 500,
            DestinyComponentType::CurrencyLookups => 600,
            DestinyComponentType::PresentationNodes => 700,
            DestinyComponentType::Collectibles => 800,
            DestinyComponentType::Records => 900,
            DestinyComponentType::Transitory => 1000,
            DestinyComponentType::Metrics => 1100,
            DestinyComponentType::StringVariables => 1200,
            DestinyComponentType::Craftables => 1300,
        }
    }

    /// The variant's number written in decimal.
    pub fn to_string(&self) -> (s: String)
        ensures
            s@ == decimal(self.spec_value() as nat),
    {
        let v = self.value();
        format_decimal(v as u32)
    }

    /// The variant named `s`; any other text is refused with an error that
    /// carries it.
    pub fn from_str(s: &str) -> (r: Result<DestinyComponentType, ParseEnumError>)
        ensures
            r matches Ok(v) ==> v.spec_name() == s@,
            r matches Err(e) ==> e.input@ == s@ && e.target@ == "DestinyComponentType"@ && (forall|v: DestinyComponentType| v.spec_name() != s@),
            forall|v: DestinyComponentType| #[trigger] v.spec_name() == s@ ==> r == Ok::<DestinyComponentType, ParseEnumError>(v),
    {
        let r = if str_eq(s, "None") {
            Ok(DestinyComponentType::None_)
        } else if str_eq(s, "Profiles") {
            Ok(DestinyComponentType::Profiles)
        } else if str_eq(s, "VendorReceipts") {
            Ok(DestinyComponentType::VendorReceipts)
        } else if str_eq(s, "ProfileInventories") {
            Ok(DestinyComponentType::ProfileInventories)
        } else if str_eq(s, "ProfileCurrencies") {
            Ok(DestinyComponentType::ProfileCurrencies)
        } else if str_eq(s, "ProfileProgression") {
            Ok(DestinyComponentType::ProfileProgression)
        } else if str_eq(s, "PlatformSilver") {
            Ok(DestinyComponentType::PlatformSilver)
        } else if str_eq(s, "Characters") {
            Ok(DestinyComponentType::Characters)
        } else if str_eq(s, "CharacterInventories") {
            Ok(DestinyComponentType::CharacterInventories)
        } else if str_eq(s, "CharacterProgressions") {
            Ok(DestinyComponentType::CharacterProgressions)
        } else if str_eq(s, "CharacterRenderData") {
            Ok(DestinyComponentType::CharacterRenderData)
        } else if str_eq(s, "CharacterActivities") {
            Ok(DestinyComponentType::CharacterActivities)
        } else if str_eq(s, "CharacterEquipment") {
            Ok(DestinyComponentType::CharacterEquipment)
        } else if str_eq(s, "ItemInstances") {
            Ok(DestinyComponentType::ItemInstances)
        } else if str_eq(s, "ItemObjectives") {
            Ok(DestinyComponentType::ItemObjectives)
        } else if str_eq(s, "ItemPerks") {
            Ok(DestinyComponentType::ItemPerks)
        } else if str_eq(s, "ItemRenderData") {
            Ok(DestinyComponentType::ItemRenderData)
        } else if str_eq(s, "ItemStats") {
            Ok(DestinyComponentType::ItemStats)
        } else if str_eq(s, "ItemSockets") {
            Ok(DestinyComponentType::ItemSockets)
        } else if str_eq(s, "ItemTalentGrids") {
            Ok(DestinyComponentType::ItemTalentGrids)
        } else if str_eq(s, "ItemCommonData") {
            Ok(DestinyComponentType::ItemCommonData)
        } else if str_eq(s, "ItemPlugStates") {
            Ok(DestinyComponentType::ItemPlugStates)
        } else if str_eq(s, "ItemPlugObjectives") {
            Ok(DestinyComponentType::ItemPlugObjectives)
        } else if str_eq(s, "ItemReusablePlugs") {
            Ok(DestinyComponentType::ItemReusablePlugs)
        } else if str_eq(s, "Vendors") {
            Ok(DestinyComponentType::Vendors)
        } else if str_eq(s, "VendorCategories") {
            Ok(DestinyComponentType::VendorCategories)
        } else if str_eq(s, "VendorSales") {
            Ok(DestinyComponentType::VendorSales)
        } else if str_eq(s, "Kiosks") {
            Ok(DestinyComponentType::Kiosks)
        } else if str_eq(s, "CurrencyLookups") {
            Ok(DestinyComponentType::CurrencyLookups)
        } else if str_eq(s, "PresentationNodes") {
            Ok(DestinyComponentType::PresentationNodes)
        } else if str_eq(s, "Collectibles") {
            Ok(DestinyComponentType::Collectibles)
        } else if str_eq(s, "Records") {
            Ok(DestinyComponentType::Records)
        } else if str_eq(s, "Transitory") {
            Ok(DestinyComponentType::Transitory)
        } else if str_eq(s, "Metrics") {
            Ok(DestinyComponentType::Metrics)
        } else if str_eq(s, "StringVariables") {
            Ok(DestinyComponentType::StringVariables)
        } else if str_eq(s, "Craftables") {
            Ok(DestinyComponentType::Craftables)
        } else {
            Err(ParseEnumError::new(s, "DestinyComponentType"))
        };
        proof {
            assert forall|v: DestinyComponentType| #[trigger] v.spec_name() == s@ implies r == Ok::<DestinyComponentType, ParseEnumError>(v) by {
                if let Ok(w) = r {
                    DestinyComponentType::lemma_names_distinct(v, w);
                }
            }
        }
        r
    }

    /// Distinct variants have distinct names.
    pub proof fn lemma_names_distinct(a: DestinyComponentType, b: DestinyComponentType)
        ensures
            a.spec_name() == b.spec_name() ==> a == b,
    {
        reveal_strlit("None");
        assert("None"@.len() == 4);
        reveal_strlit("Profiles");
        assert("Profiles"@.len() == 8);
        reveal_strlit("VendorReceipts");
        assert("VendorReceipts"@.len() == 14);
        reveal_strlit("ProfileInventories");
        assert("ProfileInventories"@.len() == 18);
        reveal_strlit("ProfileCurrencies");
        assert("ProfileCurrencies"@.len() == 17);
        reveal_strlit("ProfileProgression");
        assert("ProfileProgression"@.len() == 18);
        reveal_strlit("PlatformSilver");
        assert("PlatformSilver"@.len() == 14);
        reveal_strlit("Characters");
        assert("Characters"@.len() == 10);
        reveal_strlit("CharacterInventories");
        assert("CharacterInventories"@.len() == 20);
        reveal_strlit("CharacterProgressions");
        assert("CharacterProgressions"@.len() == 21);
        reveal_strlit("CharacterRenderData");
        assert("CharacterRenderData"@.len() == 19);
        reveal_strlit("CharacterActivities");
        assert("CharacterActivities"@.len() == 19);
        reveal_strlit("CharacterEquipment");
        assert("CharacterEquipment"@.len() == 18);
        reveal_strlit("ItemInstances");
        assert("ItemInstances"@.len() == 13);
        reveal_strlit("ItemObjectives");
        assert("ItemObjectives"@.len() == 14);
        reveal_strlit("ItemPerks");
        assert("ItemPerks"@.len() == 9);
        reveal_strlit("ItemRenderData");
        assert("ItemRenderData"@.len() == 14);
        reveal_strlit("ItemStats");
        assert("ItemStats"@.len() == 9);
        reveal_strlit("ItemSockets");
        assert("ItemSockets"@.len() == 11);
        reveal_strlit("ItemTalentGrids");
        assert("ItemTalentGrids"@.len() == 15);
        reveal_strlit("ItemCommonData");
        assert("ItemCommonData"@.len() == 14);
        reveal_strlit("ItemPlugStates");
        assert("ItemPlugStates"@.len() == 14);
        reveal_strlit("ItemPlugObjectives");
        assert("ItemPlugObjectives"@.len() == 18);
        reveal_strlit("ItemReusablePlugs");
        assert("ItemReusablePlugs"@.len() == 17);
        reveal_strlit("Vendors");
        assert("Vendors"@.len() == 7);
        reveal_strlit("VendorCategories");
        assert("VendorCategories"@.len() == 16);
        reveal_strlit("VendorSales");
        assert("VendorSales"@.len() == 11);
        reveal_strlit("Kiosks");
        assert("Kiosks"@.len() == 6);
        reveal_strlit("CurrencyLookups");
        assert("CurrencyLookups"@.len() == 15);
        reveal_strlit("PresentationNodes");
        assert("PresentationNodes"@.len() == 17);
        reveal_strlit("Collectibles");
        assert("Collectibles"@.len() == 12);
        reveal_strlit("Records");
        assert("Records"@.len() == 7);
        reveal_strlit("Transitory");
        assert("Transitory"@.len() == 10);
        reveal_strlit("Metrics");
        assert("Metrics"@.len() == 7);
        reveal_strlit("StringVariables");
        assert("StringVariables"@.len() == 15);
        reveal_strlit("Craftables");
        assert("Craftables"@.len() == 10);
        assert("VendorReceipts"@[0] != "PlatformSilver"@[0]);
        assert("VendorReceipts"@[0] != "ItemObjectives"@[0]);
        assert("VendorReceipts"@[0] != "ItemRenderData"@[0]);
        assert("VendorReceipts"@[0] != "ItemCommonData"@[0]);
        assert("VendorReceipts"@[0] != "ItemPlugStates"@[0]);
        assert("ProfileInventories"@[7] != "ProfileProgression"@[7]);
        assert("ProfileInventories"@[0] != "CharacterEquipment"@[0]);
        assert("ProfileInventories"@[0] != "ItemPlugObjectives"@[0]);
        assert("ProfileCurrencies"@[0] != "ItemReusablePlugs"@[0]);
        assert("ProfileCurrencies"@[2] != "PresentationNodes"@[2]);
        assert("ProfileProgression"@[0] != "CharacterEquipment"@[0]);
        assert("ProfileProgression"@[0] != "ItemPlugObjectives"@[0]);
        assert("PlatformSilver"@[0] != "ItemObjectives"@[0]);
        assert("PlatformSilver"@[0] != "ItemRenderData"@[0]);
        assert("PlatformSilver"@[0] != "ItemCommonData"@[0]);
        assert("PlatformSilver"@[0] != "ItemPlugStates"@[0]);
        assert("Characters"@[0] != "Transitory"@[0]);
        assert("Characters"@[1] != "Craftables"@[1]);
        assert("CharacterRenderData"@[9] != "CharacterActivities"@[9]);
        assert("CharacterEquipment"@[0] != "ItemPlugObjectives"@[0]);
        assert("ItemObjectives"@[4] != "ItemRenderData"@[4]);
        assert("ItemObjectives"@[4] != "ItemCommonData"@[4]);
        assert("ItemObjectives"@[4] != "ItemPlugStates"@[4]);
        assert("ItemPerks"@[4] != "ItemStats"@[4]);
        assert("ItemRenderData"@[4] != "ItemCommonData"@[4]);
        assert("ItemRenderData"@[4] != "ItemPlugStates"@[4]);
        assert("ItemSockets"@[0] != "VendorSales"@[0]);
        assert("ItemTalentGrids"@[0] != "CurrencyLookups"@[0]);
        assert("ItemTalentGrids"@[0] != "StringVariables"@[0]);
        assert("ItemCommonData"@[4] != "ItemPlugStates"@[4]);
        assert("ItemReusablePlugs"@[0] != "PresentationNodes"@[0]);
        assert("Vendors"@[0] != "Records"@[0]);
        assert("Vendors"@[0] != "Metrics"@[0]);
        assert("CurrencyLookups"@[0] != "StringVariables"@[0]);
        assert("Records"@[0] != "Metrics"@[0]);
        assert("Transitory"@[0] != "Craftables"@[0]);
    }

    /// Distinct variants have distinct numbers.
    pub proof fn lemma_values_distinct(a: DestinyComponentType, b: DestinyComponentType)
        ensures
            a.spec_value() == b.spec_value() ==> a == b,
    {
    }
}

impl core::str::FromStr for DestinyComponentType {
    type Err = ParseEnumError;

    fn from_str(s: &str) -> (r: Result<DestinyComponentType, ParseEnumError>)
        ensures
            r matches Ok(v) ==> v.spec_name() == s@,
            r matches Err(e) ==> e.input@ == s@ && e.target@ == "DestinyComponentType"@ && (forall|v: DestinyComponentType| v.spec_name() != s@),
            forall|v: DestinyComponentType| #[trigger] v.spec_name() == s@ ==> r == Ok::<DestinyComponentType, ParseEnumError>(v),
    {
        DestinyComponentType::from_str(s)
    }
}

/// Indicates the status of an "Unlock Flag" on a Character or Profile.
/// These are individual bits of state that can be either set or not set, and sometimes provide interesting human-readable information in their related DestinyUnlockDefinition.
#[derive(Clone, Debug, PartialEq)]
pub struct DestinyUnlockStatus {
    /// The hash identifier for the Unlock Flag. Use to lookup DestinyUnlockDefinition for static data. Not all unlocks have human readable data - in fact, most don't. But when they do, it can be very useful to show. Even if they don't have human readable data, you might be able to infer the meaning of an unlock flag with a bit of experimentation...
    pub unlock_hash: u32,

    /// Whether the unlock flag is set.
    pub is_set: bool,
}

} // verus!
