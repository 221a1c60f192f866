//! Items: their tiers, buckets, locations, types and states, and the results of equipping them.
use vstd::prelude::*;
use crate::error::ParseEnumError;
use crate::text::{decimal, format_decimal, str_eq};
use crate::flags::{is_single_bit, lemma_single_bits_disjoint};

verus! {

/// Used in a number of Destiny contracts to return data about an item stack and its quantity. Can optionally return an itemInstanceId if the item is instanced - in which case, the quantity returned will be 1. If it's not... uh, let me know okay? Thanks.
#[derive(Clone, Debug, PartialEq)]
pub struct DestinyItemQuantity {
    /// The hash identifier for the item in question. Use it to look up the item's DestinyInventoryItemDefinition.
    pub item_hash: u32,

    /// If this quantity is referring to a specific instance of an item, this will have the item's instance ID. Normally, this will be null.
    pub item_instance_id: Option<i64>,

    /// The amount of the item needed/available depending on the context of where DestinyItemQuantity is being used.
    pub quantity: i32,

    /// Indicates that this item quantity may be conditionally shown or hidden, based on various sources of state. For example: server flags, account state, or character progress.
    pub has_conditional_visibility: bool,
}

/// The number that stands for a variant on the wire is `value()`; an `as`
/// cast gives the variant's position in the list instead.
#[derive(Clone, Copy, Debug, PartialEq, Eq, Hash, Structural)]
pub enum TierType {
    Unknown,
    Currency,
    Basic,
    Common,
    Rare,
    Superior,
    Exotic,
}

impl TierType {
    /// The name of the variant, the text that `from_str` reads.
    pub open spec fn spec_name(self) -> Seq<char> {
        match self {
            TierType::Unknown => "Unknown"@,
            TierType::Currency => "Currency"@,
            TierType::Basic => "Basic"@,
            TierType::Common => "Common"@,
            TierType::Rare => "Rare"@,
            TierType::Superior => "Superior"@,
            TierType::Exotic => "Exotic"@,
        }
    }

    /// The number that stands for the variant on the wire.
    pub open spec fn spec_value(self) -> i32 {
        match self {
            TierType::Unknown => 0,
            TierType::Currency => 1,
            TierType::Basic => 2,
            TierType::Common => 3,
            TierType::Rare => 4,
            TierType::Superior => 5,
            TierType::Exotic => 6,
        }
    }

    /// The number that stands for the variant on the wire.
    pub fn value(&self) -> (v: i32)
        ensures
            v == self.spec_value(),
    {
        match self {
            TierType::Unknown => 0,
            TierType::Currency => 1,
            TierType::Basic => 2,
            TierType::Common => 3,
            TierType::Rare => 4,
            TierType::Superior => 5,
            TierType::Exotic => 6,
        }
    }

    /// The variant's number written in decimal.
    pub fn to_string(&self) -> (s: String)
        ensures
            s@ == decimal(self.spec_value() as nat),
    {
        let v = self.value();
        format_decimal(v as u32)
    }

    /// The variant named `s`; any other text is refused with an error that
    /// carries it.
    pub fn from_str(s: &str) -> (r: Result<TierType, ParseEnumError>)
        ensures
            r matches Ok(v) ==> v.spec_name() == s@,
            r matches Err(e) ==> e.input@ == s@ && e.target@ == "TierType"@ && (forall|v: TierType| v.spec_name() != s@),
            forall|v: TierType| #[trigger] v.spec_name() == s@ ==> r == Ok::<TierType, ParseEnumError>(v),
    {
        let r = if str_eq(s, "Unknown") {
            Ok(TierType::Unknown)
        } else if str_eq(s, "Currency") {
            Ok(TierType::Currency)
        } else if str_eq(s, "Basic") {
            Ok(TierType::Basic)
        } else if str_eq(s, "Common") {
            Ok(TierType::Common)
        } else if str_eq(s, "Rare") {
            Ok(TierType::Rare)
        } else if str_eq(s, "Superior") {
            Ok(TierType::Superior)
        } else if str_eq(s, "Exotic") {
            Ok(TierType::Exotic)
        } else {
            Err(ParseEnumError::new(s, "TierType"))
        };
        proof {
            assert forall|v: TierType| #[trigger] v.spec_name() == s@ implies r == Ok::<TierType, ParseEnumError>(v) by {
                if let Ok(w) = r {
                    TierType::lemma_names_distinct(v, w);
                }
            }
        }
        r
    }

    /// Distinct variants have distinct names.
    pub proof fn lemma_names_distinct(a: TierType, b: TierType)
        ensures
            a.spec_name() == b.spec_name() ==> a == b,
    {
        reveal_strlit("Unknown");
        assert("Unknown"@.len() == 7);
        reveal_strlit("Currency");
        assert("Currency"@.len() == 8);
        reveal_strlit("Basic");
        assert("Basic"@.len() == 5);
        reveal_strlit("Common");
        assert("Common"@.len() == 6);
        reveal_strlit("Rare");
        assert("Rare"@.len() == 4);
        reveal_strlit("Superior");
        assert("Superior"@.len() == 8);
        reveal_strlit("Exotic");
        assert("Exotic"@.len() == 6);
        assert("Currency"@[0] != "Superior"@[0]);
        assert("Common"@[0] != "Exotic"@[0]);
    }

    /// Distinct variants have distinct numbers.
    pub proof fn lemma_values_distinct(a: TierType, b: TierType)
        ensures
            a.spec_value() == b.spec_value() ==> a == b,
    {
    }
}

impl core::str::FromStr for TierType {
    type Err = ParseEnumError;

    fn from_str(s: &str) -> (r: Result<TierType, ParseEnumError>)
        ensures
            r matches Ok(v) ==> v.spec_name() == s@,
            r matches Err(e) ==> e.input@ == s@ && e.target@ == "TierType"@ && (forall|v: TierType| v.spec_name() != s@),
            forall|v: TierType| #[trigger] v.spec_name() == s@ ==> r == Ok::<TierType, ParseEnumError>(v),
    {
        TierType::from_str(s)
    }
}

/// The number that stands for a variant on the wire is `value()`; an `as`
/// cast gives the variant's position in the list instead.
#[derive(Clone, Copy, Debug, PartialEq, Eq, Hash, Structural)]
pub enum BucketScope {
    Character,
    Account,
}

impl BucketScope {
    /// The name of the variant, the text that `from_str` reads.
    pub open spec fn spec_name(self) -> Seq<char> {
        match self {
            BucketScope::Character => "Character"@,
            BucketScope::Account => "Account"@,
        }
    }

    /// The number that stands for the variant on the wire.
    pub open spec fn spec_value(self) -> i32 {
        match self {
            BucketScope::Character => 0,
            BucketScope::Account => 1,
        }
    }

    /// The number that stands for the variant on the wire.
    pub fn value(&self) -> (v: i32)
        ensures
            v == self.spec_value(),
    {
        match self {
            BucketScope::Character => 0,
            BucketScope::Account => 1,
        }
    }

    /// The variant's number written in decimal.
    pub fn to_string(&self) -> (s: String)
        ensures
            s@ == decimal(self.spec_value() as nat),
    {
        let v = self.value();
        format_decimal(v as u32)
    }

    /// The variant named `s`; any other text is refused with an error that
    /// carries it.
    pub fn from_str(s: &str) -> (r: Result<BucketScope, ParseEnumError>)
        ensures
            r matches Ok(v) ==> v.spec_name() == s@,
            r matches Err(e) ==> e.input@ == s@ && e.target@ == "BucketScope"@ && (forall|v: BucketScope| v.spec_name() != s@),
            forall|v: BucketScope| #[trigger] v.spec_name() == s@ ==> r == Ok::<BucketScope, ParseEnumError>(v),
    {
        let r = if str_eq(s, "Character") {
            Ok(BucketScope::Character)
        } else if str_eq(s, "Account") {
            Ok(BucketScope::Account)
        } else {
            Err(ParseEnumError::new(s, "BucketScope"))
        };
        proof {
            assert forall|v: BucketScope| #[trigger] v.spec_name() == s@ implies r == Ok::<BucketScope, ParseEnumError>(v) by {
                if let Ok(w) = r {
                    BucketScope::lemma_names_distinct(v, w);
                }
            }
        }
        r
    }

    /// Distinct variants have distinct names.
    pub proof fn lemma_names_distinct(a: BucketScope, b: BucketScope)
        ensures
            a.spec_name() == b.spec_name() ==> a == b,
    {
        reveal_strlit("Character");
        assert("Character"@.len() == 9);
        reveal_strlit("Account");
        assert("Account"@.len() == 7);
    }

    /// Distinct variants have distinct numbers.
    pub proof fn lemma_values_distinct(a: BucketScope, b: BucketScope)
        ensures
            a.spec_value() == b.spec_value() ==> a == b,
    {
    }
}

impl core::str::FromStr for BucketScope {
    type Err = ParseEnumError;

    fn from_str(s: &str) -> (r: Result<BucketScope, ParseEnumError>)
        ensures
            r matches Ok(v) ==> v.spec_name() == s@,
            r matches Err(e) ==> e.input@ == s@ && e.target@ == "BucketScope"@ && (forall|v: BucketScope| v.spec_name() != s@),
            forall|v: BucketScope| #[trigger] v.spec_name() == s@ ==> r == Ok::<BucketScope, ParseEnumError>(v),
    {
        BucketScope::from_str(s)
    }
}

/// The number that stands for a variant on the wire is `value()`; an `as`
/// cast gives the variant's position in the list instead.
#[derive(Clone, Copy, Debug, PartialEq, Eq, Hash, Structural)]
pub enum BucketCategory {
    Invisible,
    Item,
    Currency,
    Equippable,
    Ignored,
}

impl BucketCategory {
    /// The name of the variant, the text that `from_str` reads.
    pub open spec fn spec_name(self) -> Seq<char> {
        match self {
            BucketCategory::Invisible => "Invisible"@,
            BucketCategory::Item => "Item"@,
            BucketCategory::Currency => "Currency"@,
            BucketCategory::Equippable => "Equippable"@,
            BucketCategory::Ignored => "Ignored"@,
        }
    }

    /// The number that stands for the variant on the wire.
    pub open spec fn spec_value(self) -> i32 {
        match self {
            BucketCategory::Invisible => 0,
            BucketCategory::Item => 1,
            BucketCategory::Currency => 2,
            BucketCategory::Equippable => 3,
            BucketCategory::Ignored => 4,
        }
    }

    /// The number that stands for the variant on the wire.
    pub fn value(&self) -> (v: i32)
        ensures
            v == self.spec_value(),
    {
        match self {
            BucketCategory::Invisible => 0,
            BucketCategory::Item => 1,
            BucketCategory::Currency => 2,
            BucketCategory::Equippable => 3,
            BucketCategory::Ignored => 4,
        }
    }

    /// The variant's number written in decimal.
    pub fn to_string(&self) -> (s: String)
        ensures
            s@ == decimal(self.spec_value() as nat),
    {
        let v = self.value();
        format_decimal(v as u32)
    }

    /// The variant named `s`; any other text is refused with an error that
    /// carries it.
    pub fn from_str(s: &str) -> (r: Result<BucketCategory, ParseEnumError>)
        ensures
            r matches Ok(v) ==> v.spec_name() == s@,
            r matches Err(e) ==> e.input@ == s@ && e.target@ == "BucketCategory"@ && (forall|v: BucketCategory| v.spec_name() != s@),
            forall|v: BucketCategory| #[trigger] v.spec_name() == s@ ==> r == Ok::<BucketCategory, ParseEnumError>(v),
    {
        let r = if str_eq(s, "Invisible") {
            Ok(BucketCategory::Invisible)
        } else if str_eq(s, "Item") {
            Ok(BucketCategory::Item)
        } else if str_eq(s, "Currency") {
            Ok(BucketCategory::Currency)
        } else if str_eq(s, "Equippable") {
            Ok(BucketCategory::Equippable)
        } else if str_eq(s, "Ignored") {
            Ok(BucketCategory::Ignored)
        } else {
            Err(ParseEnumError::new(s, "BucketCategory"))
        };
        proof {
            assert forall|v: BucketCategory| #[trigger] v.spec_name() == s@ implies r == Ok::<BucketCategory, ParseEnumError>(v) by {
                if let Ok(w) = r {
                    BucketCategory::lemma_names_distinct(v, w);
                }
            }
        }
        r
    }

    /// Distinct variants have distinct names.
    pub proof fn lemma_names_distinct(a: BucketCategory, b: BucketCategory)
        ensures
            a.spec_name() == b.spec_name() ==> a == b,
    {
        reveal_strlit("Invisible");
        assert("Invisible"@.len() == 9);
        reveal_strlit("Item");
        assert("Item"@.len() == 4);
        reveal_strlit("Currency");
        assert("Currency"@.len() == 8);
        reveal_strlit("Equippable");
        assert("Equippable"@.len() == 10);
        reveal_strlit("Ignored");
        assert("Ignored"@.len() == 7);
    }

    /// Distinct variants have distinct numbers.
    pub proof fn lemma_values_distinct(a: BucketCategory, b: BucketCategory)
        ensures
            a.spec_value() == b.spec_value() ==> a == b,
    {
    }
}

impl core::str::FromStr for BucketCategory {
    type Err = ParseEnumError;

    fn from_str(s: &str) -> (r: Result<BucketCategory, ParseEnumError>)
        ensures
            r matches Ok(v) ==> v.spec_name() == s@,
            r matches Err(e) ==> e.input@ == s@ && e.target@ == "BucketCategory"@ && (forall|v: BucketCategory| v.spec_name() != s@),
            forall|v: BucketCategory| #[trigger] v.spec_name() == s@ ==> r == Ok::<BucketCategory, ParseEnumError>(v),
    {
        BucketCategory::from_str(s)
    }
}

/// The number that stands for a variant on the wire is `value()`; an `as`
/// cast gives the variant's position in the list instead.
#[derive(Clone, Copy, Debug, PartialEq, Eq, Hash, Structural)]
pub enum ItemLocation {
    Unknown,
    Inventory,
    Vault,
    Vendor,
    Postmaster,
}

impl ItemLocation {
    /// The name of the variant, the text that `from_str` reads.
    pub open spec fn spec_name(self) -> Seq<char> {
        match self {
            ItemLocation::Unknown => "Unknown"@,
            ItemLocation::Inventory => "Inventory"@,
            ItemLocation::Vault => "Vault"@,
            ItemLocation::Vendor => "Vendor"@,
            ItemLocation::Postmaster => "Postmaster"@,
        }
    }

    /// The number that stands for the variant on the wire.
    pub open spec fn spec_value(self) -> i32 {
        match self {
            ItemLocation::Unknown => 0,
            ItemLocation::Inventory => 1,
            ItemLocation::Vault => 2,
            ItemLocation::Vendor => 3,
            ItemLocation::Postmaster => 4,
        }
    }

    /// The number that stands for the variant on the wire.
    pub fn value(&self) -> (v: i32)
        ensures
            v == self.spec_value(),
    {
        match self {
            ItemLocation::Unknown => 0,
            ItemLocation::Inventory => 1,
            ItemLocation::Vault => 2,
            ItemLocation::Vendor => 3,
            ItemLocation::Postmaster => 4,
        }
    }

    /// The variant's number written in decimal.
    pub fn to_string(&self) -> (s: String)
        ensures
            s@ == decimal(self.spec_value() as nat),
    {
        let v = self.value();
        format_decimal(v as u32)
    }

    /// The variant named `s`; any other text is refused with an error that
    /// carries it.
    pub fn from_str(s: &str) -> (r: Result<ItemLocation, ParseEnumError>)
        ensures
            r matches Ok(v) ==> v.spec_name() == s@,
            r matches Err(e) ==> e.input@ == s@ && e.target@ == "ItemLocation"@ && (forall|v: ItemLocation| v.spec_name() != s@),
            forall|v: ItemLocation| #[trigger] v.spec_name() == s@ ==> r == Ok::<ItemLocation, ParseEnumError>(v),
    {
        let r = if str_eq(s, "Unknown") {
            Ok(ItemLocation::Unknown)
        } else if str_eq(s, "Inventory") {
            Ok(ItemLocation::Inventory)
        } else if str_eq(s, "Vault") {
            Ok(ItemLocation::Vault)
        } else if str_eq(s, "Vendor") {
            Ok(ItemLocation::Vendor)
        } else if str_eq(s, "Postmaster") {
            Ok(ItemLocation::Postmaster)
        } else {
            Err(ParseEnumError::new(s, "ItemLocation"))
        };
        proof {
            assert forall|v: ItemLocation| #[trigger] v.spec_name() == s@ implies r == Ok::<ItemLocation, ParseEnumError>(v) by {
                if let Ok(w) = r {
                    ItemLocation::lemma_names_distinct(v, w);
                }
            }
        }
        r
    }

    /// Distinct variants have distinct names.
    pub proof fn lemma_names_distinct(a: ItemLocation, b: ItemLocation)
        ensures
            a.spec_name() == b.spec_name() ==> a == b,
    {
        reveal_strlit("Unknown");
        assert("Unknown"@.len() == 7);
        reveal_strlit("Inventory");
        assert("Inventory"@.len() == 9);
        reveal_strlit("Vault");
        assert("Vault"@.len() == 5);
        reveal_strlit("Vendor");
        assert("Vendor"@.len() == 6);
        reveal_strlit("Postmaster");
        assert("Postmaster"@.len() == 10);
    }

    /// Distinct variants have distinct numbers.
    pub proof fn lemma_values_distinct(a: ItemLocation, b: ItemLocation)
        ensures
            a.spec_value() == b.spec_value() ==> a == b,
    {
    }
}

impl core::str::FromStr for ItemLocation {
    type Err = ParseEnumError;

    fn from_str(s: &str) -> (r: Result<ItemLocation, ParseEnumError>)
        ensures
            r matches Ok(v) ==> v.spec_name() == s@,
            r matches Err(e) ==> e.input@ == s@ && e.target@ == "ItemLocation"@ && (forall|v: ItemLocation| v.spec_name() != s@),
            forall|v: ItemLocation| #[trigger] v.spec_name() == s@ ==> r == Ok::<ItemLocation, ParseEnumError>(v),
    {
        ItemLocation::from_str(s)
    }
}

/// The number that stands for a variant on the wire is `value()`; an `as`
/// cast gives the variant's position in the list instead.
///
/// Each variant is one flag: its number has exactly one bit set.
#[derive(Clone, Copy, Debug, PartialEq, Eq, Hash, Structural)]
pub enum EquippingItemBlockAttributes {
    EquipOnAcquire,
}

impl EquippingItemBlockAttributes {
    /// The name of the variant, the text that `from_str` reads.
    pub open spec fn spec_name(self) -> Seq<char> {
        match self {
            EquippingItemBlockAttributes::EquipOnAcquire => "EquipOnAcquire"@,
        }
    }

    /// The number that stands for the variant on the wire.
    pub open spec fn spec_value(self) -> u32 {
        match self {
            EquippingItemBlockAttributes::EquipOnAcquire => 1,
        }
    }

    /// The number that stands for the variant on the wire.
    pub fn value(&self) -> (v: u32)
        ensures
            v == self.spec_value(),
    {
        match self {
            EquippingItemBlockAttributes::EquipOnAcquire => 1,
        }
    }

    /// The variant's number written in decimal.
    pub fn to_string(&self) -> (s: String)
        ensures
            s@ == decimal(self.spec_value() as nat),
    {
        format_decimal(self.value())
    }

    /// The variant named `s`; any other text is refused with an error that
    /// carries it.
    pub fn from_str(s: &str) -> (r: Result<EquippingItemBlockAttributes, ParseEnumError>)
        ensures
            r matches Ok(v) ==> v.spec_name() == s@,
            r matches Err(e) ==> e.input@ == s@ && e.target@ == "EquippingItemBlockAttributes"@ && (forall|v: EquippingItemBlockAttributes| v.spec_name() != s@),
            forall|v: EquippingItemBlockAttributes| #[trigger] v.spec_name() == s@ ==> r == Ok::<EquippingItemBlockAttributes, ParseEnumError>(v),
    {
        let r = if str_eq(s, "EquipOnAcquire") {
            Ok(EquippingItemBlockAttributes::EquipOnAcquire)
        } else {
            Err(ParseEnumError::new(s, "EquippingItemBlockAttributes"))
        };
        proof {
            assert forall|v: EquippingItemBlockAttributes| #[trigger] v.spec_name() == s@ implies r == Ok::<EquippingItemBlockAttributes, ParseEnumError>(v) by {
                if let Ok(w) = r {
                    EquippingItemBlockAttributes::lemma_names_distinct(v, w);
                }
            }
        }
        r
    }

    /// Distinct variants have distinct names.
    pub proof fn lemma_names_distinct(a: EquippingItemBlockAttributes, b: EquippingItemBlockAttributes)
        ensures
            a.spec_name() == b.spec_name() ==> a == b,
    {
        reveal_strlit("EquipOnAcquire");
        assert("EquipOnAcquire"@.len() == 14);
    }

    /// Distinct variants have distinct numbers.
    pub proof fn lemma_values_distinct(a: EquippingItemBlockAttributes, b: EquippingItemBlockAttributes)
        ensures
            a.spec_value() == b.spec_value() ==> a == b,
    {
    }

    /// The number of every variant has exactly one bit set.
    pub proof fn lemma_single_bit(v: EquippingItemBlockAttributes)
        ensures
            is_single_bit(v.spec_value()),
    {
        assert(is_single_bit(1u32)) by (bit_vector);
    }

    /// Distinct variants share no bit of their numbers.
    pub proof fn lemma_flags_disjoint(a: EquippingItemBlockAttributes, b: EquippingItemBlockAttributes)
        ensures
            a != b ==> a.spec_value() & b.spec_value() == 0,
    {
        if a != b {
            EquippingItemBlockAttributes::lemma_single_bit(a);
            EquippingItemBlockAttributes::lemma_single_bit(b);
            EquippingItemBlockAttributes::lemma_values_distinct(a, b);
            lemma_single_bits_disjoint(a.spec_value(), b.spec_value());
        }
    }
}

impl core::str::FromStr for EquippingItemBlockAttributes {
    type Err = ParseEnumError;

    fn from_str(s: &str) -> (r: Result<EquippingItemBlockAttributes, ParseEnumError>)
        ensures
            r matches Ok(v) ==> v.spec_name() == s@,
            r matches Err(e) ==> e.input@ == s@ && e.target@ == "EquippingItemBlockAttributes"@ && (forall|v: EquippingItemBlockAttributes| v.spec_name() != s@),
            forall|v: EquippingItemBlockAttributes| #[trigger] v.spec_name() == s@ ==> r == Ok::<EquippingItemBlockAttributes, ParseEnumError>(v),
    {
        EquippingItemBlockAttributes::from_str(s)
    }
}

/// The number that stands for a variant on the wire is `value()`; an `as`
/// cast gives the variant's position in the list instead.
#[derive(Clone, Copy, Debug, PartialEq, Eq, Hash, Structural)]
pub enum DestinyAmmunitionType {
    /// The API calls this variant `None`; `from_str` reads that name.
    None_,
    Primary,
    Special,
    Heavy,
    Unknown,
}

impl DestinyAmmunitionType {
    /// The name of the variant, the text that `from_str` reads.
    pub open spec fn spec_name(self) -> Seq<char> {
        match self {
            DestinyAmmunitionType::None_ => "None"@,
            DestinyAmmunitionType::Primary => "Primary"@,
            DestinyAmmunitionType::Special => "Special"@,
            DestinyAmmunitionType::Heavy => "Heavy"@,
            DestinyAmmunitionType::Unknown => "Unknown"@,
        }
    }

    /// The number that stands for the variant on the wire.
    pub open spec fn spec_value(self) -> i32 {
        match self {
            DestinyAmmunitionType::None_ => 0,
            DestinyAmmunitionType::Primary => 1,
            DestinyAmmunitionType::Special => 2,
            DestinyAmmunitionType::Heavy => 3,
            DestinyAmmunitionType::Unknown => 4,
        }
    }

    /// The number that stands for the variant on the wire.
    pub fn value(&self) -> (v: i32)
        ensures
            v == self.spec_value(),
    {
        match self {
            DestinyAmmunitionType::None_ => 0,
            DestinyAmmunitionType::Primary => 1,
            DestinyAmmunitionType::Special => 2,
            DestinyAmmunitionType::Heavy => 3,
            DestinyAmmunitionType::Unknown => 4,
        }
    }

    /// The variant's number written in decimal.
    pub fn to_string(&self) -> (s: String)
        ensures
            s@ == decimal(self.spec_value() as nat),
    {
        let v = self.value();
        format_decimal(v as u32)
    }

    /// The variant named `s`; any other text is refused with an error that
    /// carries it.
    pub fn from_str(s: &str) -> (r: Result<DestinyAmmunitionType, ParseEnumError>)
        ensures
            r matches Ok(v) ==> v.spec_name() == s@,
            r matches Err(e) ==> e.input@ == s@ && e.target@ == "DestinyAmmunitionType"@ && (forall|v: DestinyAmmunitionType| v.spec_name() != s@),
            forall|v: DestinyAmmunitionType| #[trigger] v.spec_name() == s@ ==> r == Ok::<DestinyAmmunitionType, ParseEnumError>(v),
    {
        let r = if str_eq(s, "None") {
            Ok(DestinyAmmunitionType::None_)
        } else if str_eq(s, "Primary") {
            Ok(DestinyAmmunitionType::Primary)
        } else if str_eq(s, "Special") {
            Ok(DestinyAmmunitionType::Special)
        } else if str_eq(s, "Heavy") {
            Ok(DestinyAmmunitionType::Heavy)
        } else if str_eq(s, "Unknown") {
            Ok(DestinyAmmunitionType::Unknown)
        } else {
            Err(ParseEnumError::new(s, "DestinyAmmunitionType"))
        };
        proof {
            assert forall|v: DestinyAmmunitionType| #[trigger] v.spec_name() == s@ implies r == Ok::<DestinyAmmunitionType, ParseEnumError>(v) by {
                if let Ok(w) = r {
                    DestinyAmmunitionType::lemma_names_distinct(v, w);
                }
            }
        }
        r
    }

    /// Distinct variants have distinct names.
    pub proof fn lemma_names_distinct(a: DestinyAmmunitionType, b: DestinyAmmunitionType)
        ensures
            a.spec_name() == b.spec_name() ==> a == b,
    {
        reveal_strlit("None");
        assert("None"@.len() == 4);
        reveal_strlit("Primary");
        assert("Primary"@.len() == 7);
        reveal_strlit("Special");
        assert("Special"@.len() == 7);
        reveal_strlit("Heavy");
        assert("Heavy"@.len() == 5);
        reveal_strlit("Unknown");
        assert("Unknown"@.len() == 7);
        assert("Primary"@[0] != "Special"@[0]);
        assert("Primary"@[0] != "Unknown"@[0]);
        assert("Special"@[0] != "Unknown"@[0]);
    }

    /// Distinct variants have distinct numbers.
    pub proof fn lemma_values_distinct(a: DestinyAmmunitionType, b: DestinyAmmunitionType)
        ensures
            a.spec_value() == b.spec_value() ==> a == b,
    {
    }
}

impl core::str::FromStr for DestinyAmmunitionType {
    type Err = ParseEnumError;

    fn from_str(s: &str) -> (r: Result<DestinyAmmunitionType, ParseEnumError>)
        ensures
            r matches Ok(v) ==> v.spec_name() == s@,
            r matches Err(e) ==> e.input@ == s@ && e.target@ == "DestinyAmmunitionType"@ && (forall|v: DestinyAmmunitionType| v.spec_name() != s@),
            forall|v: DestinyAmmunitionType| #[trigger] v.spec_name() == s@ ==> r == Ok::<DestinyAmmunitionType, ParseEnumError>(v),
    {
        DestinyAmmunitionType::from_str(s)
    }
}

#[derive(Clone, Debug, PartialEq)]
pub struct DyeReference {
    pub channel_hash: u32,

    pub dye_hash: u32,
}

/// Determines how items are sorted in an inventory bucket.
///
/// The number that stands for a variant on the wire is `value()`; an `as`
/// cast gives the variant's position in the list instead.
#[derive(Clone, Copy, Debug, PartialEq, Eq, Hash, Structural)]
pub enum DestinyItemSortType {
    ItemId,
    Timestamp,
    StackSize,
}

impl DestinyItemSortType {
    /// The name of the variant, the text that `from_str` reads.
    pub open spec fn spec_name(self) -> Seq<char> {
        match self {
            DestinyItemSortType::ItemId => "ItemId"@,
            DestinyItemSortType::Timestamp => "Timestamp"@,
            DestinyItemSortType::StackSize => "StackSize"@,
        }
    }

    /// The number that stands for the variant on the wire.
    pub open spec fn spec_value(self) -> i32 {
        match self {
            DestinyItemSortType::ItemId => 0,
            DestinyItemSortType::Timestamp => 1,
            DestinyItemSortType::StackSize => 2,
        }
    }

    /// The number that stands for the variant on the wire.
    pub fn value(&self) -> (v: i32)
        ensures
            v == self.spec_value(),
    {
        match self {
            DestinyItemSortType::ItemId => 0,
            DestinyItemSortType::Timestamp => 1,
            DestinyItemSortType::StackSize => 2,
        }
    }

    /// The variant's number written in decimal.
    pub fn to_string(&self) -> (s: String)
        ensures
            s@ == decimal(self.spec_value() as nat),
    {
        let v = self.value();
        format_decimal(v as u32)
    }

    /// The variant named `s`; any other text is refused with an error that
    /// carries it.
    pub fn from_str(s: &str) -> (r: Result<DestinyItemSortType, ParseEnumError>)
        ensures
            r matches Ok(v) ==> v.spec_name() == s@,
            r matches Err(e) ==> e.input@ == s@ && e.target@ == "DestinyItemSortType"@ && (forall|v: DestinyItemSortType| v.spec_name() != s@),
            forall|v: DestinyItemSortType| #[trigger] v.spec_name() == s@ ==> r == Ok::<DestinyItemSortType, ParseEnumError>(v),
    {
        let r = if str_eq(s, "ItemId") {
            Ok(DestinyItemSortType::ItemId)
        } else if str_eq(s, "Timestamp") {
            Ok(DestinyItemSortType::Timestamp)
        } else if str_eq(s, "StackSize") {
            Ok(DestinyItemSortType::StackSize)
        } else {
            Err(ParseEnumError::new(s, "DestinyItemSortType"))
        };
        proof {
            assert forall|v: DestinyItemSortType| #[trigger] v.spec_name() == s@ implies r == Ok::<DestinyItemSortType, ParseEnumError>(v) by {
                if let Ok(w) = r {
                    DestinyItemSortType::lemma_names_distinct(v, w);
                }
            }
        }
        r
    }

    /// Distinct variants have distinct names.
    pub proof fn lemma_names_distinct(a: DestinyItemSortType, b: DestinyItemSortType)
        ensures
            a.spec_name() == b.spec_name() ==> a == b,
    {
        reveal_strlit("ItemId");
        assert("ItemId"@.len() == 6);
        reveal_strlit("Timestamp");
        assert("Timestamp"@.len() == 9);
        reveal_strlit("StackSize");
        assert("StackSize"@.len() == 9);
        assert("Timestamp"@[0] != "StackSize"@[0]);
    }

    /// Distinct variants have distinct numbers.
    pub proof fn lemma_values_distinct(a: DestinyItemSortType, b: DestinyItemSortType)
        ensures
            a.spec_value() == b.spec_value() ==> a == b,
    {
    }
}

impl core::str::FromStr for DestinyItemSortType {
    type Err = ParseEnumError;

    fn from_str(s: &str) -> (r: Result<DestinyItemSortType, ParseEnumError>)
        ensures
            r matches Ok(v) ==> v.spec_name() == s@,
            r matches Err(e) ==> e.input@ == s@ && e.target@ == "DestinyItemSortType"@ && (forall|v: DestinyItemSortType| v.spec_name() != s@),
            forall|v: DestinyItemSortType| #[trigger] v.spec_name() == s@ ==> r == Ok::<DestinyItemSortType, ParseEnumError>(v),
    {
        DestinyItemSortType::from_str(s)
    }
}

/// The number that stands for a variant on the wire is `value()`; an `as`
/// cast gives the variant's position in the list instead.
#[derive(Clone, Copy, Debug, PartialEq, Eq, Hash, Structural)]
pub enum DamageType {
    /// The API calls this variant `None`; `from_str` reads that name.
    None_,
    Kinetic,
    Arc,
    Thermal,
    Void,
    Raid,
    Stasis,
}

impl DamageType {
    /// The name of the variant, the text that `from_str` reads.
    pub open spec fn spec_name(self) -> Seq<char> {
        match self {
            DamageType::None_ => "None"@,
            DamageType::Kinetic => "Kinetic"@,
            DamageType::Arc => "Arc"@,
            DamageType::Thermal => "Thermal"@,
            DamageType::Void => "Void"@,
            DamageType::Raid => "Raid"@,
            DamageType::Stasis => "Stasis"@,
        }
    }

    /// The number that stands for the variant on the wire.
    pub open spec fn spec_value(self) -> i32 {
        match self {
            DamageType::None_ => 0,
            DamageType::Kinetic => 1,
            DamageType::Arc => 2,
            DamageType::Thermal => 3,
            DamageType::Void => 4,
            DamageType::Raid => 5,
            DamageType::Stasis => 6,
        }
    }

    /// The number that stands for the variant on the wire.
    pub fn value(&self) -> (v: i32)
        ensures
            v == self.spec_value(),
    {
        match self {
            DamageType::None_ => 0,
            DamageType::Kinetic => 1,
            DamageType::Arc => 2,
            DamageType::Thermal => 3,
            DamageType::Void => 4,
            DamageType::Raid => 5,
            DamageType::Stasis => 6,
        }
    }

    /// The variant's number written in decimal.
    pub fn to_string(&self) -> (s: String)
        ensures
            s@ == decimal(self.spec_value() as nat),
    {
        let v = self.value();
        format_decimal(v as u32)
    }

    /// The variant named `s`; any other text is refused with an error that
    /// carries it.
    pub fn from_str(s: &str) -> (r: Result<DamageType, ParseEnumError>)
        ensures
            r matches Ok(v) ==> v.spec_name() == s@,
            r matches Err(e) ==> e.input@ == s@ && e.target@ == "DamageType"@ && (forall|v: DamageType| v.spec_name() != s@),
            forall|v: DamageType| #[trigger] v.spec_name() == s@ ==> r == Ok::<DamageType, ParseEnumError>(v),
    {
        let r = if str_eq(s, "None") {
            Ok(DamageType::None_)
        } else if str_eq(s, "Kinetic") {
            Ok(DamageType::Kinetic)
        } else if str_eq(s, "Arc") {
            Ok(DamageType::Arc)
        } else if str_eq(s, "Thermal") {
            Ok(DamageType::Thermal)
        } else if str_eq(s, "Void") {
            Ok(DamageType::Void)
        } else if str_eq(s, "Raid") {
            Ok(DamageType::Raid)
        } else if str_eq(s, "Stasis") {
            Ok(DamageType::Stasis)
        } else {
            Err(ParseEnumError::new(s, "DamageType"))
        };
        proof {
            assert forall|v: DamageType| #[trigger] v.spec_name() == s@ implies r == Ok::<DamageType, ParseEnumError>(v) by {
                if let Ok(w) = r {
                    DamageType::lemma_names_distinct(v, w);
                }
            }
        }
        r
    }

    /// Distinct variants have distinct names.
    pub proof fn lemma_names_distinct(a: DamageType, b: DamageType)
        ensures
            a.spec_name() == b.spec_name() ==> a == b,
    {
        reveal_strlit("None");
        assert("None"@.len() == 4);
        reveal_strlit("Kinetic");
        assert("Kinetic"@.len() == 7);
        reveal_strlit("Arc");
        assert("Arc"@.len() == 3);
        reveal_strlit("Thermal");
        assert("Thermal"@.len() == 7);
        reveal_strlit("Void");
        assert("Void"@.len() == 4);
        reveal_strlit("Raid");
        assert("Raid"@.len() == 4);
        reveal_strlit("Stasis");
        assert("Stasis"@.len() == 6);
        assert("None"@[0] != "Void"@[0]);
        assert("None"@[0] != "Raid"@[0]);
        assert("Kinetic"@[0] != "Thermal"@[0]);
        assert("Void"@[0] != "Raid"@[0]);
    }

    /// Distinct variants have distinct numbers.
    pub proof fn lemma_values_distinct(a: DamageType, b: DamageType)
        ensures
            a.spec_value() == b.spec_value() ==> a == b,
    {
    }
}

impl core::str::FromStr for DamageType {
    type Err = ParseEnumError;

    fn from_str(s: &str) -> (r: Result<DamageType, ParseEnumError>)
        ensures
            r matches Ok(v) ==> v.spec_name() == s@,
            r matches Err(e) ==> e.input@ == s@ && e.target@ == "DamageType"@ && (forall|v: DamageType| v.spec_name() != s@),
            forall|v: DamageType| #[trigger] v.spec_name() == s@ ==> r == Ok::<DamageType, ParseEnumError>(v),
    {
        DamageType::from_str(s)
    }
}

/// This Enumeration further classifies items by more specific categorizations than DestinyItemType. The "Sub-Type" is where we classify and categorize items one step further in specificity: "Auto Rifle" instead of just "Weapon" for example, or "Vanguard Bounty" instead of merely "Bounty".
/// These sub-types are provided for historical compatibility with Destiny 1, but an ideal alternative is to use DestinyItemCategoryDefinitions and the DestinyItemDefinition.itemCategories property instead. Item Categories allow for arbitrary hierarchies of specificity, and for items to belong to multiple categories across multiple hierarchies simultaneously. For this enum, we pick a single type as a "best guess" fit.
/// NOTE: This is not all of the item types available, and some of these are holdovers from Destiny 1 that may or may not still exist.
///
/// The number that stands for a variant on the wire is `value()`; an `as`
/// cast gives the variant's position in the list instead.
#[derive(Clone, Copy, Debug, PartialEq, Eq, Hash, Structural)]
pub enum DestinyItemSubType {
    /// The API calls this variant `None`; `from_str` reads that name.
    None_,
    /// DEPRECATED. Items can be both "Crucible" and something else interesting.
    Crucible,
    /// DEPRECATED. An item can both be "Vanguard" and something else.
    Vanguard,
    /// DEPRECATED. An item can both be Exotic and something else.
    Exotic,
    AutoRifle,
    Shotgun,
    Machinegun,
    HandCannon,
    RocketLauncher,
    FusionRifle,
    SniperRifle,
    PulseRifle,
    ScoutRifle,
    /// DEPRECATED. An item can both be CRM and something else.
    Crm,
    Sidearm,
    Sword,
    Mask,
    Shader,
    Ornament,
    FusionRifleLine,
    GrenadeLauncher,
    SubmachineGun,
    TraceRifle,
    HelmetArmor,
    GauntletsArmor,
    ChestArmor,
    LegArmor,
    ClassArmor,
    Bow,
    DummyRepeatableBounty,
    Glaive,
}

impl DestinyItemSubType {
    /// The name of the variant, the text that `from_str` reads.
    pub open spec fn spec_name(self) -> Seq<char> {
        match self {
            DestinyItemSubType::None_ => "None"@,
            DestinyItemSubType::Crucible => "Crucible"@,
            DestinyItemSubType::Vanguard => "Vanguard"@,
            DestinyItemSubType::Exotic => "Exotic"@,
            DestinyItemSubType::AutoRifle => "AutoRifle"@,
            DestinyItemSubType::Shotgun => "Shotgun"@,
            DestinyItemSubType::Machinegun => "Machinegun"@,
            DestinyItemSubType::HandCannon => "HandCannon"@,
            DestinyItemSubType::RocketLauncher => "RocketLauncher"@,
            DestinyItemSubType::FusionRifle => "FusionRifle"@,
            DestinyItemSubType::SniperRifle => "SniperRifle"@,
            DestinyItemSubType::PulseRifle => "PulseRifle"@,
            DestinyItemSubType::ScoutRifle => "ScoutRifle"@,
            DestinyItemSubType::Crm => "Crm"@,
            DestinyItemSubType::Sidearm => "Sidearm"@,
            DestinyItemSubType::Sword => "Sword"@,
            DestinyItemSubType::Mask => "Mask"@,
            DestinyItemSubType::Shader => "Shader"@,
            DestinyItemSubType::Ornament => "Ornament"@,
            DestinyItemSubType::FusionRifleLine => "FusionRifleLine"@,
            DestinyItemSubType::GrenadeLauncher => "GrenadeLauncher"@,
            DestinyItemSubType::SubmachineGun => "SubmachineGun"@,
            DestinyItemSubType::TraceRifle => "TraceRifle"@,
            DestinyItemSubType::HelmetArmor => "HelmetArmor"@,
            DestinyItemSubType::GauntletsArmor => "GauntletsArmor"@,
            DestinyItemSubType::ChestArmor => "ChestArmor"@,
            DestinyItemSubType::LegArmor => "LegArmor"@,
            DestinyItemSubType::ClassArmor => "ClassArmor"@,
            DestinyItemSubType::Bow => "Bow"@,
            DestinyItemSubType::DummyRepeatableBounty => "DummyRepeatableBounty"@,
            DestinyItemSubType::Glaive => "Glaive"@,
        }
    }

    /// The number that stands for the variant on the wire.
    pub open spec fn spec_value(self) -> i32 {
        match self {
            DestinyItemSubType::None_ => 0,
            DestinyItemSubType::Crucible => 1,
            DestinyItemSubType::Vanguard => 2,
            DestinyItemSubType::Exotic => 5,
            DestinyItemSubType::AutoRifle => 6,
            DestinyItemSubType::Shotgun => 7,
            DestinyItemSubType::Machinegun => 8,
            DestinyItemSubType::HandCannon => 9,
            DestinyItemSubType::RocketLauncher => 10,
            DestinyItemSubType::FusionRifle => 11,
            DestinyItemSubType::SniperRifle => 12,
            DestinyItemSubType::PulseRifle => 13,
            DestinyItemSubType::ScoutRifle => 14,
            DestinyItemSubType::Crm => 16,
            DestinyItemSubType::Sidearm => 17,
            DestinyItemSubType::Sword => 18,
            DestinyItemSubType::Mask => 19,
            DestinyItemSubType::Shader => 20,
            DestinyItemSubType::Ornament => 21,
            DestinyItemSubType::FusionRifleLine => 22,
            DestinyItemSubType::GrenadeLauncher => 23,
            DestinyItemSubType::SubmachineGun => 24,
            DestinyItemSubType::TraceRifle => 25,
            DestinyItemSubType::HelmetArmor => 26,
            DestinyItemSubType::GauntletsArmor => 27,
            DestinyItemSubType::ChestArmor => 28,
            DestinyItemSubType::LegArmor => 29,
            DestinyItemSubType::ClassArmor => 30,
            DestinyItemSubType::Bow => 31,
            DestinyItemSubType::DummyRepeatableBounty => 32,
            DestinyItemSubType::Glaive => 33,
        }
    }

    /// The number that stands for the variant on the wire.
    pub fn value(&self) -> (v: i32)
        ensures
            v == self.spec_value(),
    {
        match self {
            DestinyItemSubType::None_ => 0,
            DestinyItemSubType::Crucible => 1,
            DestinyItemSubType::Vanguard => 2,
            DestinyItemSubType::Exotic => 5,
            DestinyItemSubType::AutoRifle => 6,
            DestinyItemSubType::Shotgun => 7,
            DestinyItemSubType::Machinegun => 8,
            DestinyItemSubType::HandCannon => 9,
            DestinyItemSubType::RocketLauncher => 10,
            DestinyItemSubType::FusionRifle => 11,
            DestinyItemSubType::SniperRifle => 12,
            DestinyItemSubType::PulseRifle => 13,
            DestinyItemSubType::ScoutRifle => 14,
            DestinyItemSubType::Crm => 16,
            DestinyItemSubType::Sidearm => 17,
            DestinyItemSubType::Sword => 18,
            DestinyItemSubType::Mask => 19,
            DestinyItemSubType::Shader => 20,
            DestinyItemSubType::Ornament => 21,
            DestinyItemSubType::FusionRifleLine => 22,
            DestinyItemSubType::GrenadeLauncher => 23,
            DestinyItemSubType::SubmachineGun => 24,
            DestinyItemSubType::TraceRifle => 25,
            DestinyItemSubType::HelmetArmor => 26,
            DestinyItemSubType::GauntletsArmor => 27,
            DestinyItemSubType::ChestArmor => 28,
            DestinyItemSubType::LegArmor => 29,
            DestinyItemSubType::ClassArmor => 30,
            DestinyItemSubType::Bow => 31,
            DestinyItemSubType::DummyRepeatableBounty => 32,
            DestinyItemSubType::Glaive => 33,
        }
    }

    /// The variant's number written in decimal.
    pub fn to_string(&self) -> (s: String)
        ensures
            s@ == decimal(self.spec_value() as nat),
    {
        let v = self.value();
        format_decimal(v as u32)
    }

    /// The variant named `s`; any other text is refused with an error that
    /// carries it.
    pub fn from_str(s: &str) -> (r: Result<DestinyItemSubType, ParseEnumError>)
        ensures
            r matches Ok(v) ==> v.spec_name() == s@,
            r matches Err(e) ==> e.input@ == s@ && e.target@ == "DestinyItemSubType"@ && (forall|v: DestinyItemSubType| v.spec_name() != s@),
            forall|v: DestinyItemSubType| #[trigger] v.spec_name() == s@ ==> r == Ok::<DestinyItemSubType, ParseEnumError>(v),
    {
        let r = if str_eq(s, "None") {
            Ok(DestinyItemSubType::None_)
        } else if str_eq(s, "Crucible") {
            Ok(DestinyItemSubType::Crucible)
        } else if str_eq(s, "Vanguard") {
            Ok(DestinyItemSubType::Vanguard)
        } else if str_eq(s, "Exotic") {
            Ok(DestinyItemSubType::Exotic)
        } else if str_eq(s, "AutoRifle") {
            Ok(DestinyItemSubType::AutoRifle)
        } else if str_eq(s, "Shotgun") {
            Ok(DestinyItemSubType::Shotgun)
        } else if str_eq(s, "Machinegun") {
            Ok(DestinyItemSubType::Machinegun)
        } else if str_eq(s, "HandCannon") {
            Ok(DestinyItemSubType::HandCannon)
        } else if str_eq(s, "RocketLauncher") {
            Ok(DestinyItemSubType::RocketLauncher)
        } else if str_eq(s, "FusionRifle") {
            Ok(DestinyItemSubType::FusionRifle)
        } else if str_eq(s, "SniperRifle") {
            Ok(DestinyItemSubType::SniperRifle)
        } else if str_eq(s, "PulseRifle") {
            Ok(DestinyItemSubType::PulseRifle)
        } else if str_eq(s, "ScoutRifle") {
            Ok(DestinyItemSubType::ScoutRifle)
        } else if str_eq(s, "Crm") {
            Ok(DestinyItemSubType::Crm)
        } else if str_eq(s, "Sidearm") {
            Ok(DestinyItemSubType::Sidearm)
        } else if str_eq(s, "Sword") {
            Ok(DestinyItemSubType::Sword)
        } else if str_eq(s, "Mask") {
            Ok(DestinyItemSubType::Mask)
        } else if str_eq(s, "Shader") {
            Ok(DestinyItemSubType::Shader)
        } else if str_eq(s, "Ornament") {
            Ok(DestinyItemSubType::Ornament)
        } else if str_eq(s, "FusionRifleLine") {
            Ok(DestinyItemSubType::FusionRifleLine)
        } else if str_eq(s, "GrenadeLauncher") {
            Ok(DestinyItemSubType::GrenadeLauncher)
        } else if str_eq(s, "SubmachineGun") {
            Ok(DestinyItemSubType::SubmachineGun)
        } else if str_eq(s, "TraceRifle") {
            Ok(DestinyItemSubType::TraceRifle)
        } else if str_eq(s, "HelmetArmor") {
            Ok(DestinyItemSubType::HelmetArmor)
        } else if str_eq(s, "GauntletsArmor") {
            Ok(DestinyItemSubType::GauntletsArmor)
        } else if str_eq(s, "ChestArmor") {
            Ok(DestinyItemSubType::ChestArmor)
        } else if str_eq(s, "LegArmor") {
            Ok(DestinyItemSubType::LegArmor)
        } else if str_eq(s, "ClassArmor") {
            Ok(DestinyItemSubType::ClassArmor)
        } else if str_eq(s, "Bow") {
            Ok(DestinyItemSubType::Bow)
        } else if str_eq(s, "DummyRepeatableBounty") {
            Ok(DestinyItemSubType::DummyRepeatableBounty)
        } else if str_eq(s, "Glaive") {
            Ok(DestinyItemSubType::Glaive)
        } else {
            Err(ParseEnumError::new(s, "DestinyItemSubType"))
        };
        proof {
            assert forall|v: DestinyItemSubType| #[trigger] v.spec_name() == s@ implies r == Ok::<DestinyItemSubType, ParseEnumError>(v) by {
                if let Ok(w) = r {
                    DestinyItemSubType::lemma_names_distinct(v, w);
                }
            }
        }
        r
    }

    /// Distinct variants have distinct names.
    pub proof fn lemma_names_distinct(a: DestinyItemSubType, b: DestinyItemSubType)
        ensures
            a.spec_name() == b.spec_name() ==> a == b,
    {
        reveal_strlit("None");
        assert("None"@.len() == 4);
        reveal_strlit("Crucible");
        assert("Crucible"@.len() == 8);
        reveal_strlit("Vanguard");
        assert("Vanguard"@.len() == 8);
        reveal_strlit("Exotic");
        assert("Exotic"@.len() == 6);
        reveal_strlit("AutoRifle");
        assert("AutoRifle"@.len() == 9);
        reveal_strlit("Shotgun");
        assert("Shotgun"@.len() == 7);
        reveal_strlit("Machinegun");
        assert("Machinegun"@.len() == 10);
        reveal_strlit("HandCannon");
        assert("HandCannon"@.len() == 10);
        reveal_strlit("RocketLauncher");
        assert("RocketLauncher"@.len() == 14);
        reveal_strlit("FusionRifle");
        assert("FusionRifle"@.len() == 11);
        reveal_strlit("SniperRifle");
        assert("SniperRifle"@.len() == 11);
        reveal_strlit("PulseRifle");
        assert("PulseRifle"@.len() == 10);
        reveal_strlit("ScoutRifle");
        assert("ScoutRifle"@.len() == 10);
        reveal_strlit("Crm");
        assert("Crm"@.len() == 3);
        reveal_strlit("Sidearm");
        assert("Sidearm"@.len() == 7);
        reveal_strlit("Sword");
        assert("Sword"@.len() == 5);
        reveal_strlit("Mask");
        assert("Mask"@.len() == 4);
        reveal_strlit("Shader");
        assert("Shader"@.len() == 6);
        reveal_strlit("Ornament");
        assert("Ornament"@.len() == 8);
        reveal_strlit("FusionRifleLine");
        assert("FusionRifleLine"@.len() == 15);
        reveal_strlit("GrenadeLauncher");
        assert("GrenadeLauncher"@.len() == 15);
        reveal_strlit("SubmachineGun");
        assert("SubmachineGun"@.len() == 13);
        reveal_strlit("TraceRifle");
        assert("TraceRifle"@.len() == 10);
        reveal_strlit("HelmetArmor");
        assert("HelmetArmor"@.len() == 11);
        reveal_strlit("GauntletsArmor");
        assert("GauntletsArmor"@.len() == 14);
        reveal_strlit("ChestArmor");
        assert("ChestArmor"@.len() == 10);
        reveal_strlit("LegArmor");
        assert("LegArmor"@.len() == 8);
        reveal_strlit("ClassArmor");
        assert("ClassArmor"@.len() == 10);
        reveal_strlit("Bow");
        assert("Bow"@.len() == 3);
        reveal_strlit("DummyRepeatableBounty");
        assert("DummyRepeatableBounty"@.len() == 21);
        reveal_strlit("Glaive");
        assert("Glaive"@.len() == 6);
        assert("None"@[0] != "Mask"@[0]);
        assert("Crucible"@[0] != "Vanguard"@[0]);
        assert("Crucible"@[0] != "Ornament"@[0]);
        assert("Crucible"@[0] != "LegArmor"@[0]);
        assert("Vanguard"@[0] != "Ornament"@[0]);
        assert("Vanguard"@[0] != "LegArmor"@[0]);
        assert("Exotic"@[0] != "Shader"@[0]);
        assert("Exotic"@[0] != "Glaive"@[0]);
        assert("Shotgun"@[1] != "Sidearm"@[1]);
        assert("Machinegun"@[0] != "HandCannon"@[0]);
        assert("Machinegun"@[0] != "PulseRifle"@[0]);
        assert("Machinegun"@[0] != "ScoutRifle"@[0]);
        assert("Machinegun"@[0] != "TraceRifle"@[0]);
        assert("Machinegun"@[0] != "ChestArmor"@[0]);
        assert("Machinegun"@[0] != "ClassArmor"@[0]);
        assert("HandCannon"@[0] != "PulseRifle"@[0]);
        assert("HandCannon"@[0] != "ScoutRifle"@[0]);
        assert("HandCannon"@[0] != "TraceRifle"@[0]);
        assert("HandCannon"@[0] != "ChestArmor"@[0]);
        assert("HandCannon"@[0] != "ClassArmor"@[0]);
        assert("RocketLauncher"@[0] != "GauntletsArmor"@[0]);
        assert("FusionRifle"@[0] != "SniperRifle"@[0]);
        assert("FusionRifle"@[0] != "HelmetArmor"@[0]);
        assert("SniperRifle"@[0] != "HelmetArmor"@[0]);
        assert("PulseRifle"@[0] != "ScoutRifle"@[0]);
        assert("PulseRifle"@[0] != "TraceRifle"@[0]);
        assert("PulseRifle"@[0] != "ChestArmor"@[0]);
        assert("PulseRifle"@[0] != "ClassArmor"@[0]);
        assert("ScoutRifle"@[0] != "TraceRifle"@[0]);
        assert("ScoutRifle"@[0] != "ChestArmor"@[0]);
        assert("ScoutRifle"@[0] != "ClassArmor"@[0]);
        assert("Crm"@[0] != "Bow"@[0]);
        assert("Shader"@[0] != "Glaive"@[0]);
        assert("Ornament"@[0] != "LegArmor"@[0]);
        assert("FusionRifleLine"@[0] != "GrenadeLauncher"@[0]);
        assert("TraceRifle"@[0] != "ChestArmor"@[0]);
        assert("TraceRifle"@[0] != "ClassArmor"@[0]);
        assert("ChestArmor"@[1] != "ClassArmor"@[1]);
    }

    /// Distinct variants have distinct numbers.
    pub proof fn lemma_values_distinct(a: DestinyItemSubType, b: DestinyItemSubType)
        ensures
            a.spec_value() == b.spec_value() ==> a == b,
    {
    }
}

impl core::str::FromStr for DestinyItemSubType {
    type Err = ParseEnumError;

    fn from_str(s: &str) -> (r: Result<DestinyItemSubType, ParseEnumError>)
        ensures
            r matches Ok(v) ==> v.spec_name() == s@,
            r matches Err(e) ==> e.input@ == s@ && e.target@ == "DestinyItemSubType"@ && (forall|v: DestinyItemSubType| v.spec_name() != s@),
            forall|v: DestinyItemSubType| #[trigger] v.spec_name() == s@ ==> r == Ok::<DestinyItemSubType, ParseEnumError>(v),
    {
        DestinyItemSubType::from_str(s)
    }
}

/// Represents the socket energy types for Armor 2.0, Ghosts 2.0, and Stasis subclasses.
///
/// The number that stands for a variant on the wire is `value()`; an `as`
/// cast gives the variant's position in the list instead.
#[derive(Clone, Copy, Debug, PartialEq, Eq, Hash, Structural)]
pub enum DestinyEnergyType {
    Any,
    Arc,
    Thermal,
    Void,
    /// The API calls this variant `Ghost`; `from_str` reads that name.
    Ghost_,
    Subclass,
    Stasis,
}

impl DestinyEnergyType {
    /// The name of the variant, the text that `from_str` reads.
    pub open spec fn spec_name(self) -> Seq<char> {
        match self {
            DestinyEnergyType::Any => "Any"@,
            DestinyEnergyType::Arc => "Arc"@,
            DestinyEnergyType::Thermal => "Thermal"@,
            DestinyEnergyType::Void => "Void"@,
            DestinyEnergyType::Ghost_ => "Ghost"@,
            DestinyEnergyType::Subclass => "Subclass"@,
            DestinyEnergyType::Stasis => "Stasis"@,
        }
    }

    /// The number that stands for the variant on the wire.
    pub open spec fn spec_value(self) -> i32 {
        match self {
            DestinyEnergyType::Any => 0,
            DestinyEnergyType::Arc => 1,
            DestinyEnergyType::Thermal => 2,
            DestinyEnergyType::Void => 3,
            DestinyEnergyType::Ghost_ => 4,
            DestinyEnergyType::Subclass => 5,
            DestinyEnergyType::Stasis => 6,
        }
    }

    /// The number that stands for the variant on the wire.
    pub fn value(&self) -> (v: i32)
        ensures
            v == self.spec_value(),
    {
        match self {
            DestinyEnergyType::Any => 0,
            DestinyEnergyType::Arc => 1,
            DestinyEnergyType::Thermal => 2,
            DestinyEnergyType::Void => 3,
            DestinyEnergyType::Ghost_ => 4,
            DestinyEnergyType::Subclass => 5,
            DestinyEnergyType::Stasis => 6,
        }
    }

    /// The variant's number written in decimal.
    pub fn to_string(&self) -> (s: String)
        ensures
            s@ == decimal(self.spec_value() as nat),
    {
        let v = self.value();
        format_decimal(v as u32)
    }

    /// The variant named `s`; any other text is refused with an error that
    /// carries it.
    pub fn from_str(s: &str) -> (r: Result<DestinyEnergyType, ParseEnumError>)
        ensures
            r matches Ok(v) ==> v.spec_name() == s@,
            r matches Err(e) ==> e.input@ == s@ && e.target@ == "DestinyEnergyType"@ && (forall|v: DestinyEnergyType| v.spec_name() != s@),
            forall|v: DestinyEnergyType| #[trigger] v.spec_name() == s@ ==> r == Ok::<DestinyEnergyType, ParseEnumError>(v),
    {
        let r = if str_eq(s, "Any") {
            Ok(DestinyEnergyType::Any)
        } else if str_eq(s, "Arc") {
            Ok(DestinyEnergyType::Arc)
        } else if str_eq(s, "Thermal") {
            Ok(DestinyEnergyType::Thermal)
        } else if str_eq(s, "Void") {
            Ok(DestinyEnergyType::Void)
        } else if str_eq(s, "Ghost") {
            Ok(DestinyEnergyType::Ghost_)
        } else if str_eq(s, "Subclass") {
            Ok(DestinyEnergyType::Subclass)
        } else if str_eq(s, "Stasis") {
            Ok(DestinyEnergyType::Stasis)
        } else {
            Err(ParseEnumError::new(s, "DestinyEnergyType"))
        };
        proof {
            assert forall|v: DestinyEnergyType| #[trigger] v.spec_name() == s@ implies r == Ok::<DestinyEnergyType, ParseEnumError>(v) by {
                if let Ok(w) = r {
                    DestinyEnergyType::lemma_names_distinct(v, w);
                }
            }
        }
        r
    }

    /// Distinct variants have distinct names.
    pub proof fn lemma_names_distinct(a: DestinyEnergyType, b: DestinyEnergyType)
        ensures
            a.spec_name() == b.spec_name() ==> a == b,
    {
        reveal_strlit("Any");
        assert("Any"@.len() == 3);
        reveal_strlit("Arc");
        assert("Arc"@.len() == 3);
        reveal_strlit("Thermal");
        assert("Thermal"@.len() == 7);
        reveal_strlit("Void");
        assert("Void"@.len() == 4);
        reveal_strlit("Ghost");
        assert("Ghost"@.len() == 5);
        reveal_strlit("Subclass");
        assert("Subclass"@.len() == 8);
        reveal_strlit("Stasis");
        assert("Stasis"@.len() == 6);
        assert("Any"@[1] != "Arc"@[1]);
    }

    /// Distinct variants have distinct numbers.
    pub proof fn lemma_values_distinct(a: DestinyEnergyType, b: DestinyEnergyType)
        ensures
            a.spec_value() == b.spec_value() ==> a == b,
    {
    }
}

impl core::str::FromStr for DestinyEnergyType {
    type Err = ParseEnumError;

    fn from_str(s: &str) -> (r: Result<DestinyEnergyType, ParseEnumError>)
        ensures
            r matches Ok(v) ==> v.spec_name() == s@,
            r matches Err(e) ==> e.input@ == s@ && e.target@ == "DestinyEnergyType"@ && (forall|v: DestinyEnergyType| v.spec_name() != s@),
            forall|v: DestinyEnergyType| #[trigger] v.spec_name() == s@ ==> r == Ok::<DestinyEnergyType, ParseEnumError>(v),
    {
        DestinyEnergyType::from_str(s)
    }
}

/// Indicates how a perk should be shown, or if it should be, in the game UI. Maybe useful for those of you trying to filter out internal-use-only perks (or for those of you trying to figure out what they do!)
///
/// The number that stands for a variant on the wire is `value()`; an `as`
/// cast gives the variant's position in the list instead.
#[derive(Clone, Copy, Debug, PartialEq, Eq, Hash, Structural)]
pub enum ItemPerkVisibility {
    Visible,
    Disabled,
    Hidden,
}

impl ItemPerkVisibility {
    /// The name of the variant, the text that `from_str` reads.
    pub open spec fn spec_name(self) -> Seq<char> {
        match self {
            ItemPerkVisibility::Visible => "Visible"@,
            ItemPerkVisibility::Disabled => "Disabled"@,
            ItemPerkVisibility::Hidden => "Hidden"@,
        }
    }

    /// The number that stands for the variant on the wire.
    pub open spec fn spec_value(self) -> i32 {
        match self {
            ItemPerkVisibility::Visible => 0,
            ItemPerkVisibility::Disabled => 1,
            ItemPerkVisibility::Hidden => 2,
        }
    }

    /// The number that stands for the variant on the wire.
    pub fn value(&self) -> (v: i32)
        ensures
            v == self.spec_value(),
    {
        match self {
            ItemPerkVisibility::Visible => 0,
            ItemPerkVisibility::Disabled => 1,
            ItemPerkVisibility::Hidden => 2,
        }
    }

    /// The variant's number written in decimal.
    pub fn to_string(&self) -> (s: String)
        ensures
            s@ == decimal(self.spec_value() as nat),
    {
        let v = self.value();
        format_decimal(v as u32)
    }

    /// The variant named `s`; any other text is refused with an error that
    /// carries it.
    pub fn from_str(s: &str) -> (r: Result<ItemPerkVisibility, ParseEnumError>)
        ensures
            r matches Ok(v) ==> v.spec_name() == s@,
            r matches Err(e) ==> e.input@ == s@ && e.target@ == "ItemPerkVisibility"@ && (forall|v: ItemPerkVisibility| v.spec_name() != s@),
            forall|v: ItemPerkVisibility| #[trigger] v.spec_name() == s@ ==> r == Ok::<ItemPerkVisibility, ParseEnumError>(v),
    {
        let r = if str_eq(s, "Visible") {
            Ok(ItemPerkVisibility::Visible)
        } else if str_eq(s, "Disabled") {
            Ok(ItemPerkVisibility::Disabled)
        } else if str_eq(s, "Hidden") {
            Ok(ItemPerkVisibility::Hidden)
        } else {
            Err(ParseEnumError::new(s, "ItemPerkVisibility"))
        };
        proof {
            assert forall|v: ItemPerkVisibility| #[trigger] v.spec_name() == s@ implies r == Ok::<ItemPerkVisibility, ParseEnumError>(v) by {
                if let Ok(w) = r {
                    ItemPerkVisibility::lemma_names_distinct(v, w);
                }
            }
        }
        r
    }

    /// Distinct variants have distinct names.
    pub proof fn lemma_names_distinct(a: ItemPerkVisibility, b: ItemPerkVisibility)
        ensures
            a.spec_name() == b.spec_name() ==> a == b,
    {
        reveal_strlit("Visible");
        assert("Visible"@.len() == 7);
        reveal_strlit("Disabled");
        assert("Disabled"@.len() == 8);
        reveal_strlit("Hidden");
        assert("Hidden"@.len() == 6);
    }

    /// Distinct variants have distinct numbers.
    pub proof fn lemma_values_distinct(a: ItemPerkVisibility, b: ItemPerkVisibility)
        ensures
            a.spec_value() == b.spec_value() ==> a == b,
    {
    }
}

impl core::str::FromStr for ItemPerkVisibility {
    type Err = ParseEnumError;

    fn from_str(s: &str) -> (r: Result<ItemPerkVisibility, ParseEnumError>)
        ensures
            r matches Ok(v) ==> v.spec_name() == s@,
            r matches Err(e) ==> e.input@ == s@ && e.target@ == "ItemPerkVisibility"@ && (forall|v: ItemPerkVisibility| v.spec_name() != s@),
            forall|v: ItemPerkVisibility| #[trigger] v.spec_name() == s@ ==> r == Ok::<ItemPerkVisibility, ParseEnumError>(v),
    {
        ItemPerkVisibility::from_str(s)
    }
}

/// As you run into items that need to be classified for Milestone purposes in ways that we cannot infer via direct data, add a new classification here and use a string constant to represent it in the local item config file.
/// NOTE: This is not all of the item types available, and some of these are holdovers from Destiny 1 that may or may not still exist.
///
/// The number that stands for a variant on the wire is `value()`; an `as`
/// cast gives the variant's position in the list instead.
#[derive(Clone, Copy, Debug, PartialEq, Eq, Hash, Structural)]
pub enum SpecialItemType {
    /// The API calls this variant `None`; `from_str` reads that name.
    None_,
    SpecialCurrency,
    Armor,
    Weapon,
    Engram,
    Consumable,
    ExchangeMaterial,
    MissionReward,
    Currency,
}

impl SpecialItemType {
    /// The name of the variant, the text that `from_str` reads.
    pub open spec fn spec_name(self) -> Seq<char> {
        match self {
            SpecialItemType::None_ => "None"@,
            SpecialItemType::SpecialCurrency => "SpecialCurrency"@,
            SpecialItemType::Armor => "Armor"@,
            SpecialItemType::Weapon => "Weapon"@,
            SpecialItemType::Engram => "Engram"@,
            SpecialItemType::Consumable => "Consumable"@,
            SpecialItemType::ExchangeMaterial => "ExchangeMaterial"@,
            SpecialItemType::MissionReward => "MissionReward"@,
            SpecialItemType::Currency => "Currency"@,
        }
    }

    /// The number that stands for the variant on the wire.
    pub open spec fn spec_value(self) -> i32 {
        match self {
            SpecialItemType::None_ => 0,
            SpecialItemType::SpecialCurrency => 1,
            SpecialItemType::Armor => 8,
            SpecialItemType::Weapon => 9,
            SpecialItemType::Engram => 23,
            SpecialItemType::Consumable => 24,
            SpecialItemType::ExchangeMaterial => 25,
            SpecialItemType::MissionReward => 27,
            SpecialItemType::Currency => 29,
        }
    }

    /// The number that stands for the variant on the wire.
    pub fn value(&self) -> (v: i32)
        ensures
            v == self.spec_value(),
    {
        match self {
            SpecialItemType::None_ => 0,
            SpecialItemType::SpecialCurrency => 1,
            SpecialItemType::Armor => 8,
            SpecialItemType::Weapon => 9,
            SpecialItemType::Engram => 23,
            SpecialItemType::Consumable => 24,
            SpecialItemType::ExchangeMaterial => 25,
            SpecialItemType::MissionReward => 27,
            SpecialItemType::Currency => 29,
        }
    }

    /// The variant's number written in decimal.
    pub fn to_string(&self) -> (s: String)
        ensures
            s@ == decimal(self.spec_value() as nat),
    {
        let v = self.value();
        format_decimal(v as u32)
    }

    /// The variant named `s`; any other text is refused with an error that
    /// carries it.
    pub fn from_str(s: &str) -> (r: Result<SpecialItemType, ParseEnumError>)
        ensures
            r matches Ok(v) ==> v.spec_name() == s@,
            r matches Err(e) ==> e.input@ == s@ && e.target@ == "SpecialItemType"@ && (forall|v: SpecialItemType| v.spec_name() != s@),
            forall|v: SpecialItemType| #[trigger] v.spec_name() == s@ ==> r == Ok::<SpecialItemType, ParseEnumError>(v),
    {
        let r = if str_eq(s, "None") {
            Ok(SpecialItemType::None_)
        } else if str_eq(s, "SpecialCurrency") {
            Ok(SpecialItemType::SpecialCurrency)
        } else if str_eq(s, "Armor") {
            Ok(SpecialItemType::Armor)
        } else if str_eq(s, "Weapon") {
            Ok(SpecialItemType::Weapon)
        } else if str_eq(s, "Engram") {
            Ok(SpecialItemType::Engram)
        } else if str_eq(s, "Consumable") {
            Ok(SpecialItemType::Consumable)
        } else if str_eq(s, "ExchangeMaterial") {
            Ok(SpecialItemType::ExchangeMaterial)
        } else if str_eq(s, "MissionReward") {
            Ok(SpecialItemType::MissionReward)
        } else if str_eq(s, "Currency") {
            Ok(SpecialItemType::Currency)
        } else {
            Err(ParseEnumError::new(s, "SpecialItemType"))
        };
        proof {
            assert forall|v: SpecialItemType| #[trigger] v.spec_name() == s@ implies r == Ok::<SpecialItemType, ParseEnumError>(v) by {
                if let Ok(w) = r {
                    SpecialItemType::lemma_names_distinct(v, w);
                }
            }
        }
        r
    }

    /// Distinct variants have distinct names.
    pub proof fn lemma_names_distinct(a: SpecialItemType, b: SpecialItemType)
        ensures
            a.spec_name() == b.spec_name() ==> a == b,
    {
        reveal_strlit("None");
        assert("None"@.len() == 4);
        reveal_strlit("SpecialCurrency");
        assert("SpecialCurrency"@.len() == 15);
        reveal_strlit("Armor");
        assert("Armor"@.len() == 5);
        reveal_strlit("Weapon");
        assert("Weapon"@.len() == 6);
        reveal_strlit("Engram");
        assert("Engram"@.len() == 6);
        reveal_strlit("Consumable");
        assert("Consumable"@.len() == 10);
        reveal_strlit("ExchangeMaterial");
        assert("ExchangeMaterial"@.len() == 16);
        reveal_strlit("MissionReward");
        assert("MissionReward"@.len() == 13);
        reveal_strlit("Currency");
        assert("Currency"@.len() == 8);
        assert("Weapon"@[0] != "Engram"@[0]);
    }

    /// Distinct variants have distinct numbers.
    pub proof fn lemma_values_distinct(a: SpecialItemType, b: SpecialItemType)
        ensures
            a.spec_value() == b.spec_value() ==> a == b,
    {
    }
}

impl core::str::FromStr for SpecialItemType {
    type Err = ParseEnumError;

    fn from_str(s: &str) -> (r: Result<SpecialItemType, ParseEnumError>)
        ensures
            r matches Ok(v) ==> v.spec_name() == s@,
            r matches Err(e) ==> e.input@ == s@ && e.target@ == "SpecialItemType"@ && (forall|v: SpecialItemType| v.spec_name() != s@),
            forall|v: SpecialItemType| #[trigger] v.spec_name() == s@ ==> r == Ok::<SpecialItemType, ParseEnumError>(v),
    {
        SpecialItemType::from_str(s)
    }
}

/// An enumeration that indicates the high-level "type" of the item, attempting to iron out the context specific differences for specific instances of an entity. For instance, though a weapon may be of various weapon "Types", in DestinyItemType they are all classified as "Weapon". This allows for better filtering on a higher level of abstraction for the concept of types.
/// This enum is provided for historical compatibility with Destiny 1, but an ideal alternative is to use DestinyItemCategoryDefinitions and the DestinyItemDefinition.itemCategories property instead. Item Categories allow for arbitrary hierarchies of specificity, and for items to belong to multiple categories across multiple hierarchies simultaneously. For this enum, we pick a single type as a "best guess" fit.
/// NOTE: This is not all of the item types available, and some of these are holdovers from Destiny 1 that may or may not still exist.
/// I keep updating these because they're so damn convenient. I guess I shouldn't fight it.
///
/// The number that stands for a variant on the wire is `value()`; an `as`
/// cast gives the variant's position in the list instead.
#[derive(Clone, Copy, Debug, PartialEq, Eq, Hash, Structural)]
pub enum DestinyItemType {
    /// The API calls this variant `None`; `from_str` reads that name.
    None_,
    Currency,
    Armor,
    Weapon,
    Message,
    Engram,
    Consumable,
    ExchangeMaterial,
    MissionReward,
    QuestStep,
    QuestStepComplete,
    Emblem,
    Quest,
    Subclass,
    ClanBanner,
    Aura,
    Mod,
    Dummy,
    Ship,
    Vehicle,
    Emote,
    /// The API calls this variant `Ghost`; `from_str` reads that name.
    Ghost_,
    Package,
    Bounty,
    Wrapper,
    SeasonalArtifact,
    Finisher,
    Pattern,
}

impl DestinyItemType {
    /// The name of the variant, the text that `from_str` reads.
    pub open spec fn spec_name(self) -> Seq<char> {
        match self {
            DestinyItemType::None_ => "None"@,
            DestinyItemType::Currency => "Currency"@,
            DestinyItemType::Armor => "Armor"@,
            DestinyItemType::Weapon => "Weapon"@,
            DestinyItemType::Message => "Message"@,
            DestinyItemType::Engram => "Engram"@,
            DestinyItemType::Consumable => "Consumable"@,
            DestinyItemType::ExchangeMaterial => "ExchangeMaterial"@,
            DestinyItemType::MissionReward => "MissionReward"@,
            DestinyItemType::QuestStep => "QuestStep"@,
            DestinyItemType::QuestStepComplete => "QuestStepComplete"@,
            DestinyItemType::Emblem => "Emblem"@,
            DestinyItemType::Quest => "Quest"@,
            DestinyItemType::Subclass => "Subclass"@,
            DestinyItemType::ClanBanner => "ClanBanner"@,
            DestinyItemType::Aura => "Aura"@,
            DestinyItemType::Mod => "Mod"@,
            DestinyItemType::Dummy => "Dummy"@,
            DestinyItemType::Ship => "Ship"@,
            DestinyItemType::Vehicle => "Vehicle"@,
            DestinyItemType::Emote => "Emote"@,
            DestinyItemType::Ghost_ => "Ghost"@,
            DestinyItemType::Package => "Package"@,
            DestinyItemType::Bounty => "Bounty"@,
            DestinyItemType::Wrapper => "Wrapper"@,
            DestinyItemType::SeasonalArtifact => "SeasonalArtifact"@,
            DestinyItemType::Finisher => "Finisher"@,
            DestinyItemType::Pattern => "Pattern"@,
        }
    }

    /// The number that stands for the variant on the wire.
    pub open spec fn spec_value(self) -> i32 {
        match self {
            DestinyItemType::None_ => 0,
            DestinyItemType::Currency => 1,
            DestinyItemType::Armor => 2,
            DestinyItemType::Weapon => 3,
            DestinyItemType::Message => 7,
            DestinyItemType::Engram => 8,
            DestinyItemType::Consumable => 9,
            DestinyItemType::ExchangeMaterial => 10,
            DestinyItemType::MissionReward => 11,
            DestinyItemType::QuestStep => 12,
            DestinyItemType::QuestStepComplete => 13,
            DestinyItemType::Emblem => 14,
            DestinyItemType::Quest => 15,
            DestinyItemType::Subclass => 16,
            DestinyItemType::ClanBanner => 17,
            DestinyItemType::Aura => 18,
            DestinyItemType::Mod => 19,
            DestinyItemType::Dummy => 20,
            DestinyItemType::Ship => 21,
            DestinyItemType::Vehicle => 22,
            DestinyItemType::Emote => 23,
            DestinyItemType::Ghost_ => 24,
            DestinyItemType::Package => 25,
            DestinyItemType::Bounty => 26,
            DestinyItemType::Wrapper => 27,
            DestinyItemType::SeasonalArtifact => 28,
            DestinyItemType::Finisher => 29,
            DestinyItemType::Pattern => 30,
        }
    }

    /// The number that stands for the variant on the wire.
    pub fn value(&self) -> (v: i32)
        ensures
            v == self.spec_value(),
    {
        match self {
            DestinyItemType::None_ => 0,
            DestinyItemType::Currency => 1,
            DestinyItemType::Armor => 2,
            DestinyItemType::Weapon => 3,
            DestinyItemType::Message => 7,
            DestinyItemType::Engram => 8,
            DestinyItemType::Consumable => 9,
            DestinyItemType::ExchangeMaterial => 10,
            DestinyItemType::MissionReward => 11,
            DestinyItemType::QuestStep => 12,
            DestinyItemType::QuestStepComplete => 13,
            DestinyItemType::Emblem => 14,
            DestinyItemType::Quest => 15,
            DestinyItemType::Subclass => 16,
            DestinyItemType::ClanBanner => 17,
            DestinyItemType::Aura => 18,
            DestinyItemType::Mod => 19,
            DestinyItemType::Dummy => 20,
            DestinyItemType::Ship => 21,
            DestinyItemType::Vehicle => 22,
            DestinyItemType::Emote => 23,
            DestinyItemType::Ghost_ => 24,
            DestinyItemType::Package => 25,
            DestinyItemType::Bounty => 26,
            DestinyItemType::Wrapper => 27,
            DestinyItemType::SeasonalArtifact => 28,
            DestinyItemType::Finisher => 29,
            DestinyItemType::Pattern => 30,
        }
    }

    /// The variant's number written in decimal.
    pub fn to_string(&self) -> (s: String)
        ensures
            s@ == decimal(self.spec_value() as nat),
    {
        let v = self.value();
        format_decimal(v as u32)
    }

    /// The variant named `s`; any other text is refused with an error that
    /// carries it.
    pub fn from_str(s: &str) -> (r: Result<DestinyItemType, ParseEnumError>)
        ensures
            r matches Ok(v) ==> v.spec_name() == s@,
            r matches Err(e) ==> e.input@ == s@ && e.target@ == "DestinyItemType"@ && (forall|v: DestinyItemType| v.spec_name() != s@),
            forall|v: DestinyItemType| #[trigger] v.spec_name() == s@ ==> r == Ok::<DestinyItemType, ParseEnumError>(v),
    {
        let r = if str_eq(s, "None") {
            Ok(DestinyItemType::None_)
        } else if str_eq(s, "Currency") {
            Ok(DestinyItemType::Currency)
        } else if str_eq(s, "Armor") {
            Ok(DestinyItemType::Armor)
        } else if str_eq(s, "Weapon") {
            Ok(DestinyItemType::Weapon)
        } else if str_eq(s, "Message") {
            Ok(DestinyItemType::Message)
        } else if str_eq(s, "Engram") {
            Ok(DestinyItemType::Engram)
        } else if str_eq(s, "Consumable") {
            Ok(DestinyItemType::Consumable)
        } else if str_eq(s, "ExchangeMaterial") {
            Ok(DestinyItemType::ExchangeMaterial)
        } else if str_eq(s, "MissionReward") {
            Ok(DestinyItemType::MissionReward)
        } else if str_eq(s, "QuestStep") {
            Ok(DestinyItemType::QuestStep)
        } else if str_eq(s, "QuestStepComplete") {
            Ok(DestinyItemType::QuestStepComplete)
        } else if str_eq(s, "Emblem") {
            Ok(DestinyItemType::Emblem)
        } else if str_eq(s, "Quest") {
            Ok(DestinyItemType::Quest)
        } else if str_eq(s, "Subclass") {
            Ok(DestinyItemType::Subclass)
        } else if str_eq(s, "ClanBanner") {
            Ok(DestinyItemType::ClanBanner)
        } else if str_eq(s, "Aura") {
            Ok(DestinyItemType::Aura)
        } else if str_eq(s, "Mod") {
            Ok(DestinyItemType::Mod)
        } else if str_eq(s, "Dummy") {
            Ok(DestinyItemType::Dummy)
        } else if str_eq(s, "Ship") {
            Ok(DestinyItemType::Ship)
        } else if str_eq(s, "Vehicle") {
            Ok(DestinyItemType::Vehicle)
        } else if str_eq(s, "Emote") {
            Ok(DestinyItemType::Emote)
        } else if str_eq(s, "Ghost") {
            Ok(DestinyItemType::Ghost_)
        } else if str_eq(s, "Package") {
            Ok(DestinyItemType::Package)
        } else if str_eq(s, "Bounty") {
            Ok(DestinyItemType::Bounty)
        } else if str_eq(s, "Wrapper") {
            Ok(DestinyItemType::Wrapper)
        } else if str_eq(s, "SeasonalArtifact") {
            Ok(DestinyItemType::SeasonalArtifact)
        } else if str_eq(s, "Finisher") {
            Ok(DestinyItemType::Finisher)
        } else if str_eq(s, "Pattern") {
            Ok(DestinyItemType::Pattern)
        } else {
            Err(ParseEnumError::new(s, "DestinyItemType"))
        };
        proof {
            assert forall|v: DestinyItemType| #[trigger] v.spec_name() == s@ implies r == Ok::<DestinyItemType, ParseEnumError>(v) by {
                if let Ok(w) = r {
                    DestinyItemType::lemma_names_distinct(v, w);
                }
            }
        }
        r
    }

    /// Distinct variants have distinct names.
    pub proof fn lemma_names_distinct(a: DestinyItemType, b: DestinyItemType)
        ensures
            a.spec_name() == b.spec_name() ==> a == b,
    {
        reveal_strlit("None");
        assert("None"@.len() == 4);
        reveal_strlit("Currency");
        assert("Currency"@.len() == 8);
        reveal_strlit("Armor");
        assert("Armor"@.len() == 5);
        reveal_strlit("Weapon");
        assert("Weapon"@.len() == 6);
        reveal_strlit("Message");
        assert("Message"@.len() == 7);
        reveal_strlit("Engram");
        assert("Engram"@.len() == 6);
        reveal_strlit("Consumable");
        assert("Consumable"@.len() == 10);
        reveal_strlit("ExchangeMaterial");
        assert("ExchangeMaterial"@.len() == 16);
        reveal_strlit("MissionReward");
        assert("MissionReward"@.len() == 13);
        reveal_strlit("QuestStep");
        assert("QuestStep"@.len() == 9);
        reveal_strlit("QuestStepComplete");
        assert("QuestStepComplete"@.len() == 17);
        reveal_strlit("Emblem");
        assert("Emblem"@.len() == 6);
        reveal_strlit("Quest");
        assert("Quest"@.len() == 5);
        reveal_strlit("Subclass");
        assert("Subclass"@.len() == 8);
        reveal_strlit("ClanBanner");
        assert("ClanBanner"@.len() == 10);
        reveal_strlit("Aura");
        assert("Aura"@.len() == 4);
        reveal_strlit("Mod");
        assert("Mod"@.len() == 3);
        reveal_strlit("Dummy");
        assert("Dummy"@.len() == 5);
        reveal_strlit("Ship");
        assert("Ship"@.len() == 4);
        reveal_strlit("Vehicle");
        assert("Vehicle"@.len() == 7);
        reveal_strlit("Emote");
        assert("Emote"@.len() == 5);
        reveal_strlit("Ghost");
        assert("Ghost"@.len() == 5);
        reveal_strlit("Package");
        assert("Package"@.len() == 7);
        reveal_strlit("Bounty");
        assert("Bounty"@.len() == 6);
        reveal_strlit("Wrapper");
        assert("Wrapper"@.len() == 7);
        reveal_strlit("SeasonalArtifact");
        assert("SeasonalArtifact"@.len() == 16);
        reveal_strlit("Finisher");
        assert("Finisher"@.len() == 8);
        reveal_strlit("Pattern");
        assert("Pattern"@.len() == 7);
        assert("None"@[0] != "Aura"@[0]);
        assert("None"@[0] != "Ship"@[0]);
        assert("Currency"@[0] != "Subclass"@[0]);
        assert("Currency"@[0] != "Finisher"@[0]);
        assert("Armor"@[0] != "Quest"@[0]);
        assert("Armor"@[0] != "Dummy"@[0]);
        assert("Armor"@[0] != "Emote"@[0]);
        assert("Armor"@[0] != "Ghost"@[0]);
        assert("Weapon"@[0] != "Engram"@[0]);
        assert("Weapon"@[0] != "Emblem"@[0]);
        assert("Weapon"@[0] != "Bounty"@[0]);
        assert("Message"@[0] != "Vehicle"@[0]);
        assert("Message"@[0] != "Package"@[0]);
        assert("Message"@[0] != "Wrapper"@[0]);
        assert("Message"@[0] != "Pattern"@[0]);
        assert("Engram"@[1] != "Emblem"@[1]);
        assert("Engram"@[0] != "Bounty"@[0]);
        assert("Consumable"@[1] != "ClanBanner"@[1]);
        assert("ExchangeMaterial"@[0] != "SeasonalArtifact"@[0]);
        assert("Emblem"@[0] != "Bounty"@[0]);
        assert("Quest"@[0] != "Dummy"@[0]);
        assert("Quest"@[0] != "Emote"@[0]);
        assert("Quest"@[0] != "Ghost"@[0]);
        assert("Subclass"@[0] != "Finisher"@[0]);
        assert("Aura"@[0] != "Ship"@[0]);
        assert("Dummy"@[0] != "Emote"@[0]);
        assert("Dummy"@[0] != "Ghost"@[0]);
        assert("Vehicle"@[0] != "Package"@[0]);
        assert("Vehicle"@[0] != "Wrapper"@[0]);
        assert("Vehicle"@[0] != "Pattern"@[0]);
        assert("Emote"@[0] != "Ghost"@[0]);
        assert("Package"@[0] != "Wrapper"@[0]);
        assert("Package"@[2] != "Pattern"@[2]);
        assert("Wrapper"@[0] != "Pattern"@[0]);
    }

    /// Distinct variants have distinct numbers.
    pub proof fn lemma_values_distinct(a: DestinyItemType, b: DestinyItemType)
        ensures
            a.spec_value() == b.spec_value() ==> a == b,
    {
    }
}

impl core::str::FromStr for DestinyItemType {
    type Err = ParseEnumError;

    fn from_str(s: &str) -> (r: Result<DestinyItemType, ParseEnumError>)
        ensures
            r matches Ok(v) ==> v.spec_name() == s@,
            r matches Err(e) ==> e.input@ == s@ && e.target@ == "DestinyItemType"@ && (forall|v: DestinyItemType| v.spec_name() != s@),
            forall|v: DestinyItemType| #[trigger] v.spec_name() == s@ ==> r == Ok::<DestinyItemType, ParseEnumError>(v),
    {
        DestinyItemType::from_str(s)
    }
}

/// A plug can optionally have a "Breaker Type": a special ability that can affect units in unique ways. Activating this plug can grant one of these types.
///
/// The number that stands for a variant on the wire is `value()`; an `as`
/// cast gives the variant's position in the list instead.
#[derive(Clone, Copy, Debug, PartialEq, Eq, Hash, Structural)]
pub enum DestinyBreakerType {
    /// The API calls this variant `None`; `from_str` reads that name.
    None_,
    ShieldPiercing,
    Disruption,
    Stagger,
}

impl DestinyBreakerType {
    /// The name of the variant, the text that `from_str` reads.
    pub open spec fn spec_name(self) -> Seq<char> {
        match self {
            DestinyBreakerType::None_ => "None"@,
            DestinyBreakerType::ShieldPiercing => "ShieldPiercing"@,
            DestinyBreakerType::Disruption => "Disruption"@,
            DestinyBreakerType::Stagger => "Stagger"@,
        }
    }

    /// The number that stands for the variant on the wire.
    pub open spec fn spec_value(self) -> i32 {
        match self {
            DestinyBreakerType::None_ => 0,
            DestinyBreakerType::ShieldPiercing => 1,
            DestinyBreakerType::Disruption => 2,
            DestinyBreakerType::Stagger => 3,
        }
    }

    /// The number that stands for the variant on the wire.
    pub fn value(&self) -> (v: i32)
        ensures
            v == self.spec_value(),
    {
        match self {
            DestinyBreakerType::None_ => 0,
            DestinyBreakerType::ShieldPiercing => 1,
            DestinyBreakerType::Disruption => 2,
            DestinyBreakerType::Stagger => 3,
        }
    }

    /// The variant's number written in decimal.
    pub fn to_string(&self) -> (s: String)
        ensures
            s@ == decimal(self.spec_value() as nat),
    {
        let v = self.value();
        format_decimal(v as u32)
    }

    /// The variant named `s`; any other text is refused with an error that
    /// carries it.
    pub fn from_str(s: &str) -> (r: Result<DestinyBreakerType, ParseEnumError>)
        ensures
            r matches Ok(v) ==> v.spec_name() == s@,
            r matches Err(e) ==> e.input@ == s@ && e.target@ == "DestinyBreakerType"@ && (forall|v: DestinyBreakerType| v.spec_name() != s@),
            forall|v: DestinyBreakerType| #[trigger] v.spec_name() == s@ ==> r == Ok::<DestinyBreakerType, ParseEnumError>(v),
    {
        let r = if str_eq(s, "None") {
            Ok(DestinyBreakerType::None_)
        } else if str_eq(s, "ShieldPiercing") {
            Ok(DestinyBreakerType::ShieldPiercing)
        } else if str_eq(s, "Disruption") {
            Ok(DestinyBreakerType::Disruption)
        } else if str_eq(s, "Stagger") {
            Ok(DestinyBreakerType::Stagger)
        } else {
            Err(ParseEnumError::new(s, "DestinyBreakerType"))
        };
        proof {
            assert forall|v: DestinyBreakerType| #[trigger] v.spec_name() == s@ implies r == Ok::<DestinyBreakerType, ParseEnumError>(v) by {
                if let Ok(w) = r {
                    DestinyBreakerType::lemma_names_distinct(v, w);
                }
            }
        }
        r
    }

    /// Distinct variants have distinct names.
    pub proof fn lemma_names_distinct(a: DestinyBreakerType, b: DestinyBreakerType)
        ensures
            a.spec_name() == b.spec_name() ==> a == b,
    {
        reveal_strlit("None");
        assert("None"@.len() == 4);
        reveal_strlit("ShieldPiercing");
        assert("ShieldPiercing"@.len() == 14);
        reveal_strlit("Disruption");
        assert("Disruption"@.len() == 10);
        reveal_strlit("Stagger");
        assert("Stagger"@.len() == 7);
    }

    /// Distinct variants have distinct numbers.
    pub proof fn lemma_values_distinct(a: DestinyBreakerType, b: DestinyBreakerType)
        ensures
            a.spec_value() == b.spec_value() ==> a == b,
    {
    }
}

impl core::str::FromStr for DestinyBreakerType {
    type Err = ParseEnumError;

    fn from_str(s: &str) -> (r: Result<DestinyBreakerType, ParseEnumError>)
        ensures
            r matches Ok(v) ==> v.spec_name() == s@,
            r matches Err(e) ==> e.input@ == s@ && e.target@ == "DestinyBreakerType"@ && (forall|v: DestinyBreakerType| v.spec_name() != s@),
            forall|v: DestinyBreakerType| #[trigger] v.spec_name() == s@ ==> r == Ok::<DestinyBreakerType, ParseEnumError>(v),
    {
        DestinyBreakerType::from_str(s)
    }
}

/// The number that stands for a variant on the wire is `value()`; an `as`
/// cast gives the variant's position in the list instead.
#[derive(Clone, Copy, Debug, PartialEq, Eq, Hash, Structural)]
pub enum ItemBindStatus {
    NotBound,
    BoundToCharacter,
    BoundToAccount,
    BoundToGuild,
}

impl ItemBindStatus {
    /// The name of the variant, the text that `from_str` reads.
    pub open spec fn spec_name(self) -> Seq<char> {
        match self {
            ItemBindStatus::NotBound => "NotBound"@,
            ItemBindStatus::BoundToCharacter => "BoundToCharacter"@,
            ItemBindStatus::BoundToAccount => "BoundToAccount"@,
            ItemBindStatus::BoundToGuild => "BoundToGuild"@,
        }
    }

    /// The number that stands for the variant on the wire.
    pub open spec fn spec_value(self) -> i32 {
        match self {
            ItemBindStatus::NotBound => 0,
            ItemBindStatus::BoundToCharacter => 1,
            ItemBindStatus::BoundToAccount => 2,
            ItemBindStatus::BoundToGuild => 3,
        }
    }

    /// The number that stands for the variant on the wire.
    pub fn value(&self) -> (v: i32)
        ensures
            v == self.spec_value(),
    {
        match self {
            ItemBindStatus::NotBound => 0,
            ItemBindStatus::BoundToCharacter => 1,
            ItemBindStatus::BoundToAccount => 2,
            ItemBindStatus::BoundToGuild => 3,
        }
    }

    /// The variant's number written in decimal.
    pub fn to_string(&self) -> (s: String)
        ensures
            s@ == decimal(self.spec_value() as nat),
    {
        let v = self.value();
        format_decimal(v as u32)
    }

    /// The variant named `s`; any other text is refused with an error that
    /// carries it.
    pub fn from_str(s: &str) -> (r: Result<ItemBindStatus, ParseEnumError>)
        ensures
            r matches Ok(v) ==> v.spec_name() == s@,
            r matches Err(e) ==> e.input@ == s@ && e.target@ == "ItemBindStatus"@ && (forall|v: ItemBindStatus| v.spec_name() != s@),
            forall|v: ItemBindStatus| #[trigger] v.spec_name() == s@ ==> r == Ok::<ItemBindStatus, ParseEnumError>(v),
    {
        let r = if str_eq(s, "NotBound") {
            Ok(ItemBindStatus::NotBound)
        } else if str_eq(s, "BoundToCharacter") {
            Ok(ItemBindStatus::BoundToCharacter)
        } else if str_eq(s, "BoundToAccount") {
            Ok(ItemBindStatus::BoundToAccount)
        } else if str_eq(s, "BoundToGuild") {
            Ok(ItemBindStatus::BoundToGuild)
        } else {
            Err(ParseEnumError::new(s, "ItemBindStatus"))
        };
        proof {
            assert forall|v: ItemBindStatus| #[trigger] v.spec_name() == s@ implies r == Ok::<ItemBindStatus, ParseEnumError>(v) by {
                if let Ok(w) = r {
                    ItemBindStatus::lemma_names_distinct(v, w);
                }
            }
        }
        r
    }

    /// Distinct variants have distinct names.
    pub proof fn lemma_names_distinct(a: ItemBindStatus, b: ItemBindStatus)
        ensures
            a.spec_name() == b.spec_name() ==> a == b,
    {
        reveal_strlit("NotBound");
        assert("NotBound"@.len() == 8);
        reveal_strlit("BoundToCharacter");
        assert("BoundToCharacter"@.len() == 16);
        reveal_strlit("BoundToAccount");
        assert("BoundToAccount"@.len() == 14);
        reveal_strlit("BoundToGuild");
        assert("BoundToGuild"@.len() == 12);
    }

    /// Distinct variants have distinct numbers.
    pub proof fn lemma_values_distinct(a: ItemBindStatus, b: ItemBindStatus)
        ensures
            a.spec_value() == b.spec_value() ==> a == b,
    {
    }
}

impl core::str::FromStr for ItemBindStatus {
    type Err = ParseEnumError;

    fn from_str(s: &str) -> (r: Result<ItemBindStatus, ParseEnumError>)
        ensures
            r matches Ok(v) ==> v.spec_name() == s@,
            r matches Err(e) ==> e.input@ == s@ && e.target@ == "ItemBindStatus"@ && (forall|v: ItemBindStatus| v.spec_name() != s@),
            forall|v: ItemBindStatus| #[trigger] v.spec_name() == s@ ==> r == Ok::<ItemBindStatus, ParseEnumError>(v),
    {
        ItemBindStatus::from_str(s)
    }
}

/// Whether you can transfer an item, and why not if you can't.
///
/// The number that stands for a variant on the wire is `value()`; an `as`
/// cast gives the variant's position in the list instead.
///
/// Each variant is one flag: its number has exactly one bit set.
#[derive(Clone, Copy, Debug, PartialEq, Eq, Hash, Structural)]
pub enum TransferStatuses {
    /// You can't transfer the item because it is equipped on a character.
    ItemIsEquipped,
    /// The item is defined as not transferrable in its DestinyInventoryItemDefinition.nonTransferrable property.
    NotTransferrable,
    /// You could transfer the item, but the place you're trying to put it has run out of room! Check your remaining Vault and/or character space.
    NoRoomInDestination,
}

impl TransferStatuses {
    /// The name of the variant, the text that `from_str` reads.
    pub open spec fn spec_name(self) -> Seq<char> {
        match self {
            TransferStatuses::ItemIsEquipped => "ItemIsEquipped"@,
            TransferStatuses::NotTransferrable => "NotTransferrable"@,
            TransferStatuses::NoRoomInDestination => "NoRoomInDestination"@,
        }
    }

    /// The number that stands for the variant on the wire.
    pub open spec fn spec_value(self) -> u32 {
        match self {
            TransferStatuses::ItemIsEquipped => 1,
            TransferStatuses::NotTransferrable => 2,
            TransferStatuses::NoRoomInDestination => 4,
        }
    }

    /// The number that stands for the variant on the wire.
    pub fn value(&self) -> (v: u32)
        ensures
            v == self.spec_value(),
    {
        match self {
            TransferStatuses::ItemIsEquipped => 1,
            TransferStatuses::NotTransferrable => 2,
            TransferStatuses::NoRoomInDestination => 4,
        }
    }

    /// The variant's number written in decimal.
    pub fn to_string(&self) -> (s: String)
        ensures
            s@ == decimal(self.spec_value() as nat),
    {
        format_decimal(self.value())
    }

    /// The variant named `s`; any other text is refused with an error that
    /// carries it.
    pub fn from_str(s: &str) -> (r: Result<TransferStatuses, ParseEnumError>)
        ensures
            r matches Ok(v) ==> v.spec_name() == s@,
            r matches Err(e) ==> e.input@ == s@ && e.target@ == "TransferStatuses"@ && (forall|v: TransferStatuses| v.spec_name() != s@),
            forall|v: TransferStatuses| #[trigger] v.spec_name() == s@ ==> r == Ok::<TransferStatuses, ParseEnumError>(v),
    {
        let r = if str_eq(s, "ItemIsEquipped") {
            Ok(TransferStatuses::ItemIsEquipped)
        } else if str_eq(s, "NotTransferrable") {
            Ok(TransferStatuses::NotTransferrable)
        } else if str_eq(s, "NoRoomInDestination") {
            Ok(TransferStatuses::NoRoomInDestination)
        } else {
            Err(ParseEnumError::new(s, "TransferStatuses"))
        };
        proof {
            assert forall|v: TransferStatuses| #[trigger] v.spec_name() == s@ implies r == Ok::<TransferStatuses, ParseEnumError>(v) by {
                if let Ok(w) = r {
                    TransferStatuses::lemma_names_distinct(v, w);
                }
            }
        }
        r
    }

    /// Distinct variants have distinct names.
    pub proof fn lemma_names_distinct(a: TransferStatuses, b: TransferStatuses)
        ensures
            a.spec_name() == b.spec_name() ==> a == b,
    {
        reveal_strlit("ItemIsEquipped");
        assert("ItemIsEquipped"@.len() == 14);
        reveal_strlit("NotTransferrable");
        assert("NotTransferrable"@.len() == 16);
        reveal_strlit("NoRoomInDestination");
        assert("NoRoomInDestination"@.len() == 19);
    }

    /// Distinct variants have distinct numbers.
    pub proof fn lemma_values_distinct(a: TransferStatuses, b: TransferStatuses)
        ensures
            a.spec_value() == b.spec_value() ==> a == b,
    {
    }

    /// The number of every variant has exactly one bit set.
    pub proof fn lemma_single_bit(v: TransferStatuses)
        ensures
            is_single_bit(v.spec_value()),
    {
        assert(is_single_bit(1u32) && is_single_bit(2u32) && is_single_bit(4u32)) by (bit_vector);
    }

    /// Distinct variants share no bit of their numbers.
    pub proof fn lemma_flags_disjoint(a: TransferStatuses, b: TransferStatuses)
        ensures
            a != b ==> a.spec_value() & b.spec_value() == 0,
    {
        if a != b {
            TransferStatuses::lemma_single_bit(a);
            TransferStatuses::lemma_single_bit(b);
            TransferStatuses::lemma_values_distinct(a, b);
            lemma_single_bits_disjoint(a.spec_value(), b.spec_value());
        }
    }
}

impl core::str::FromStr for TransferStatuses {
    type Err = ParseEnumError;

    fn from_str(s: &str) -> (r: Result<TransferStatuses, ParseEnumError>)
        ensures
            r matches Ok(v) ==> v.spec_name() == s@,
            r matches Err(e) ==> e.input@ == s@ && e.target@ == "TransferStatuses"@ && (forall|v: TransferStatuses| v.spec_name() != s@),
            forall|v: TransferStatuses| #[trigger] v.spec_name() == s@ ==> r == Ok::<TransferStatuses, ParseEnumError>(v),
    {
        TransferStatuses::from_str(s)
    }
}

/// A flags enumeration/bitmask where each bit represents a different possible state that the item can be in that may effect how the item is displayed to the user and what actions can be performed against it.
///
/// The number that stands for a variant on the wire is `value()`; an `as`
/// cast gives the variant's position in the list instead.
///
/// Each variant is one flag: its number has exactly one bit set.
#[derive(Clone, Copy, Debug, PartialEq, Eq, Hash, Structural)]
pub enum ItemState {
    /// If this bit is set, the item has been "locked" by the user and cannot be deleted. You may want to represent this visually with a "lock" icon.
    Locked,
    /// If this bit is set, the item is a quest that's being tracked by the user. You may want a visual indicator to show that this is a tracked quest.
    ///
    /// The API calls this variant `Tracked`; `from_str` reads that name.
    Tracked_,
    /// If this bit is set, the item has a Masterwork plug inserted. This usually coincides with having a special "glowing" effect applied to the item's icon.
    Masterwork,
    /// If this bit is set, the item has been 'crafted' by the player. You may want to represent this visually with a "crafted" icon overlay.
    Crafted,
    /// If this bit is set, the item has a 'highlighted' objective. You may want to represent this with an orange-red icon border color.
    HighlightedObjective,
}

impl ItemState {
    /// The name of the variant, the text that `from_str` reads.
    pub open spec fn spec_name(self) -> Seq<char> {
        match self {
            ItemState::Locked => "Locked"@,
            ItemState::Tracked_ => "Tracked"@,
            ItemState::Masterwork => "Masterwork"@,
            ItemState::Crafted => "Crafted"@,
            ItemState::HighlightedObjective => "HighlightedObjective"@,
        }
    }

    /// The number that stands for the variant on the wire.
    pub open spec fn spec_value(self) -> u32 {
        match self {
            ItemState::Locked => 1,
            ItemState::Tracked_ => 2,
            ItemState::Masterwork => 4,
            ItemState::Crafted => 8,
            ItemState::HighlightedObjective => 16,
        }
    }

    /// The number that stands for the variant on the wire.
    pub fn value(&self) -> (v: u32)
        ensures
            v == self.spec_value(),
    {
        match self {
            ItemState::Locked => 1,
            ItemState::Tracked_ => 2,
            ItemState::Masterwork => 4,
            ItemState::Crafted => 8,
            ItemState::HighlightedObjective => 16,
        }
    }

    /// The variant's number written in decimal.
    pub fn to_string(&self) -> (s: String)
        ensures
            s@ == decimal(self.spec_value() as nat),
    {
        format_decimal(self.value())
    }

    /// The variant named `s`; any other text is refused with an error that
    /// carries it.
    pub fn from_str(s: &str) -> (r: Result<ItemState, ParseEnumError>)
        ensures
            r matches Ok(v) ==> v.spec_name() == s@,
            r matches Err(e) ==> e.input@ == s@ && e.target@ == "ItemState"@ && (forall|v: ItemState| v.spec_name() != s@),
            forall|v: ItemState| #[trigger] v.spec_name() == s@ ==> r == Ok::<ItemState, ParseEnumError>(v),
    {
        let r = if str_eq(s, "Locked") {
            Ok(ItemState::Locked)
        } else if str_eq(s, "Tracked") {
            Ok(ItemState::Tracked_)
        } else if str_eq(s, "Masterwork") {
            Ok(ItemState::Masterwork)
        } else if str_eq(s, "Crafted") {
            Ok(ItemState::Crafted)
        } else if str_eq(s, "HighlightedObjective") {
            Ok(ItemState::HighlightedObjective)
        } else {
            Err(ParseEnumError::new(s, "ItemState"))
        };
        proof {
            assert forall|v: ItemState| #[trigger] v.spec_name() == s@ implies r == Ok::<ItemState, ParseEnumError>(v) by {
                if let Ok(w) = r {
                    ItemState::lemma_names_distinct(v, w);
                }
            }
        }
        r
    }

    /// Distinct variants have distinct names.
    pub proof fn lemma_names_distinct(a: ItemState, b: ItemState)
        ensures
            a.spec_name() == b.spec_name() ==> a == b,
    {
        reveal_strlit("Locked");
        assert("Locked"@.len() == 6);
        reveal_strlit("Tracked");
        assert("Tracked"@.len() == 7);
        reveal_strlit("Masterwork");
        assert("Masterwork"@.len() == 10);
        reveal_strlit("Crafted");
        assert("Crafted"@.len() == 7);
        reveal_strlit("HighlightedObjective");
        assert("HighlightedObjective"@.len() == 20);
        assert("Tracked"@[0] != "Crafted"@[0]);
    }

    /// Distinct variants have distinct numbers.
    pub proof fn lemma_values_distinct(a: ItemState, b: ItemState)
        ensures
            a.spec_value() == b.spec_value() ==> a == b,
    {
    }

    /// The number of every variant has exactly one bit set.
    pub proof fn lemma_single_bit(v: ItemState)
        ensures
            is_single_bit(v.spec_value()),
    {
        assert(is_single_bit(1u32) && is_single_bit(2u32) && is_single_bit(4u32) && is_single_bit(8u32) && is_single_bit(16u32)) by (bit_vector);
    }

    /// Distinct variants share no bit of their numbers.
    pub proof fn lemma_flags_disjoint(a: ItemState, b: ItemState)
        ensures
            a != b ==> a.spec_value() & b.spec_value() == 0,
    {
        if a != b {
            ItemState::lemma_single_bit(a);
            ItemState::lemma_single_bit(b);
            ItemState::lemma_values_distinct(a, b);
            lemma_single_bits_disjoint(a.spec_value(), b.spec_value());
        }
    }
}

impl core::str::FromStr for ItemState {
    type Err = ParseEnumError;

    fn from_str(s: &str) -> (r: Result<ItemState, ParseEnumError>)
        ensures
            r matches Ok(v) ==> v.spec_name() == s@,
            r matches Err(e) ==> e.input@ == s@ && e.target@ == "ItemState"@ && (forall|v: ItemState| v.spec_name() != s@),
            forall|v: ItemState| #[trigger] v.spec_name() == s@ ==> r == Ok::<ItemState, ParseEnumError>(v),
    {
        ItemState::from_str(s)
    }
}

/// The reasons why an item cannot be equipped, if any. Many flags can be set, or "None" if
///
/// The number that stands for a variant on the wire is `value()`; an `as`
/// cast gives the variant's position in the list instead.
///
/// Each variant is one flag: its number has exactly one bit set.
#[derive(Clone, Copy, Debug, PartialEq, Eq, Hash, Structural)]
pub enum EquipFailureReason {
    /// This is not the kind of item that can be equipped. Did you try equipping Glimmer or something?
    ItemUnequippable,
    /// This item is part of a "unique set", and you can't have more than one item of that same set type equipped at once. For instance, if you already have an Exotic Weapon equipped, you can't equip a second one in another weapon slot.
    ItemUniqueEquipRestricted,
    /// This item has state-based gating that prevents it from being equipped in certain circumstances. For instance, an item might be for Warlocks only and you're a Titan, or it might require you to have beaten some special quest that you haven't beaten yet. Use the additional failure data passed on the item itself to get more information about what the specific failure case was (See DestinyInventoryItemDefinition and DestinyItemInstanceComponent)
    ItemFailedUnlockCheck,
    /// This item requires you to have reached a specific character level in order to equip it, and you haven't reached that level yet.
    ItemFailedLevelCheck,
    /// This item is 'wrapped' and must be unwrapped before being equipped. NOTE: This value used to be called ItemNotOnCharacter but that is no longer accurate.
    ItemWrapped,
    /// This item is not yet loaded and cannot be equipped yet.
    ItemNotLoaded,
    /// This item is block-listed and cannot be equipped.
    ItemEquipBlocklisted,
    /// This item does not meet the loadout requirements for the current activity
    ItemLoadoutRequirementNotMet,
}

impl EquipFailureReason {
    /// The name of the variant, the text that `from_str` reads.
    pub open spec fn spec_name(self) -> Seq<char> {
        match self {
            EquipFailureReason::ItemUnequippable => "ItemUnequippable"@,
            EquipFailureReason::ItemUniqueEquipRestricted => "ItemUniqueEquipRestricted"@,
            EquipFailureReason::ItemFailedUnlockCheck => "ItemFailedUnlockCheck"@,
            EquipFailureReason::ItemFailedLevelCheck => "ItemFailedLevelCheck"@,
            EquipFailureReason::ItemWrapped => "ItemWrapped"@,
            EquipFailureReason::ItemNotLoaded => "ItemNotLoaded"@,
            EquipFailureReason::ItemEquipBlocklisted => "ItemEquipBlocklisted"@,
            EquipFailureReason::ItemLoadoutRequirementNotMet => "ItemLoadoutRequirementNotMet"@,
        }
    }

    /// The number that stands for the variant on the wire.
    pub open spec fn spec_value(self) -> u32 {
        match self {
            EquipFailureReason::ItemUnequippable => 1,
            EquipFailureReason::ItemUniqueEquipRestricted => 2,
            EquipFailureReason::ItemFailedUnlockCheck => 4,
            EquipFailureReason::ItemFailedLevelCheck => 8,
            EquipFailureReason::ItemWrapped => 16,
            EquipFailureReason::ItemNotLoaded => 32,
            EquipFailureReason::ItemEquipBlocklisted => 64,
            EquipFailureReason::ItemLoadoutRequirementNotMet => 128,
        }
    }

    /// The number that stands for the variant on the wire.
    pub fn value(&self) -> (v: u32)
        ensures
            v == self.spec_value(),
    {
        match self {
            EquipFailureReason::ItemUnequippable => 1,
            EquipFailureReason::ItemUniqueEquipRestricted => 2,
            EquipFailureReason::ItemFailedUnlockCheck => 4,
            EquipFailureReason::ItemFailedLevelCheck => 8,
            EquipFailureReason::ItemWrapped => 16,
            EquipFailureReason::ItemNotLoaded => 32,
            EquipFailureReason::ItemEquipBlocklisted => 64,
            EquipFailureReason::ItemLoadoutRequirementNotMet => 128,
        }
    }

    /// The variant's number written in decimal.
    pub fn to_string(&self) -> (s: String)
        ensures
            s@ == decimal(self.spec_value() as nat),
    {
        format_decimal(self.value())
    }

    /// The variant named `s`; any other text is refused with an error that
    /// carries it.
    pub fn from_str(s: &str) -> (r: Result<EquipFailureReason, ParseEnumError>)
        ensures
            r matches Ok(v) ==> v.spec_name() == s@,
            r matches Err(e) ==> e.input@ == s@ && e.target@ == "EquipFailureReason"@ && (forall|v: EquipFailureReason| v.spec_name() != s@),
            forall|v: EquipFailureReason| #[trigger] v.spec_name() == s@ ==> r == Ok::<EquipFailureReason, ParseEnumError>(v),
    {
        let r = if str_eq(s, "ItemUnequippable") {
            Ok(EquipFailureReason::ItemUnequippable)
        } else if str_eq(s, "ItemUniqueEquipRestricted") {
            Ok(EquipFailureReason::ItemUniqueEquipRestricted)
        } else if str_eq(s, "ItemFailedUnlockCheck") {
            Ok(EquipFailureReason::ItemFailedUnlockCheck)
        } else if str_eq(s, "ItemFailedLevelCheck") {
            Ok(EquipFailureReason::ItemFailedLevelCheck)
        } else if str_eq(s, "ItemWrapped") {
            Ok(EquipFailureReason::ItemWrapped)
        } else if str_eq(s, "ItemNotLoaded") {
            Ok(EquipFailureReason::ItemNotLoaded)
        } else if str_eq(s, "ItemEquipBlocklisted") {
            Ok(EquipFailureReason::ItemEquipBlocklisted)
        } else if str_eq(s, "ItemLoadoutRequirementNotMet") {
            Ok(EquipFailureReason::ItemLoadoutRequirementNotMet)
        } else {
            Err(ParseEnumError::new(s, "EquipFailureReason"))
        };
        proof {
            assert forall|v: EquipFailureReason| #[trigger] v.spec_name() == s@ implies r == Ok::<EquipFailureReason, ParseEnumError>(v) by {
                if let Ok(w) = r {
                    EquipFailureReason::lemma_names_distinct(v, w);
                }
            }
        }
        r
    }

    /// Distinct variants have distinct names.
    pub proof fn lemma_names_distinct(a: EquipFailureReason, b: EquipFailureReason)
        ensures
            a.spec_name() == b.spec_name() ==> a == b,
    {
        reveal_strlit("ItemUnequippable");
        assert("ItemUnequippable"@.len() == 16);
        reveal_strlit("ItemUniqueEquipRestricted");
        assert("ItemUniqueEquipRestricted"@.len() == 25);
        reveal_strlit("ItemFailedUnlockCheck");
        assert("ItemFailedUnlockCheck"@.len() == 21);
        reveal_strlit("ItemFailedLevelCheck");
        assert("ItemFailedLevelCheck"@.len() == 20);
        reveal_strlit("ItemWrapped");
        assert("ItemWrapped"@.len() == 11);
        reveal_strlit("ItemNotLoaded");
        assert("ItemNotLoaded"@.len() == 13);
        reveal_strlit("ItemEquipBlocklisted");
        assert("ItemEquipBlocklisted"@.len() == 20);
        reveal_strlit("ItemLoadoutRequirementNotMet");
        assert("ItemLoadoutRequirementNotMet"@.len() == 28);
        assert("ItemFailedLevelCheck"@[4] != "ItemEquipBlocklisted"@[4]);
    }

    /// Distinct variants have distinct numbers.
    pub proof fn lemma_values_distinct(a: EquipFailureReason, b: EquipFailureReason)
        ensures
            a.spec_value() == b.spec_value() ==> a == b,
    {
    }

    /// The number of every variant has exactly one bit set.
    pub proof fn lemma_single_bit(v: EquipFailureReason)
        ensures
            is_single_bit(v.spec_value()),
    {
        assert(is_single_bit(1u32) && is_single_bit(2u32) && is_single_bit(4u32) && is_single_bit(8u32) && is_single_bit(16u32) && is_single_bit(32u32) && is_single_bit(64u32) && is_single_bit(128u32)) by (bit_vector);
    }

    /// Distinct variants share no bit of their numbers.
    pub proof fn lemma_flags_disjoint(a: EquipFailureReason, b: EquipFailureReason)
        ensures
            a != b ==> a.spec_value() & b.spec_value() == 0,
    {
        if a != b {
            EquipFailureReason::lemma_single_bit(a);
            EquipFailureReason::lemma_single_bit(b);
            EquipFailureReason::lemma_values_distinct(a, b);
            lemma_single_bits_disjoint(a.spec_value(), b.spec_value());
        }
    }
}

impl core::str::FromStr for EquipFailureReason {
    type Err = ParseEnumError;

    fn from_str(s: &str) -> (r: Result<EquipFailureReason, ParseEnumError>)
        ensures
            r matches Ok(v) ==> v.spec_name() == s@,
            r matches Err(e) ==> e.input@ == s@ && e.target@ == "EquipFailureReason"@ && (forall|v: EquipFailureReason| v.spec_name() != s@),
            forall|v: EquipFailureReason| #[trigger] v.spec_name() == s@ ==> r == Ok::<EquipFailureReason, ParseEnumError>(v),
    {
        EquipFailureReason::from_str(s)
    }
}

/// The results of a bulk Equipping operation performed through the Destiny API.
#[derive(Clone, Debug, PartialEq)]
pub struct DestinyEquipItemResults {
    pub equip_results: Option<Vec<DestinyEquipItemResult>>,
}

/// The results of an Equipping operation performed through the Destiny API.
#[derive(Clone, Debug, PartialEq)]
pub struct DestinyEquipItemResult {
    /// The instance ID of the item in question (all items that can be equipped must, but definition, be Instanced and thus have an Instance ID that you can use to refer to them)
    pub item_instance_id: i64,

    /// The number of the PlatformErrorCodes value that says whether it succeeded, and if it failed why.
    pub equip_status: i32,
}

} // verus!
