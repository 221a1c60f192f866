use rustgie_types::activities::DestinyJoinClosedReasons;
use rustgie_types::activities::DestinyPartyMemberStates;
use rustgie_types::items::EquipFailureReason;
use rustgie_types::items::EquippingItemBlockAttributes;
use rustgie_types::items::ItemState;
use rustgie_types::items::TransferStatuses;
use rustgie_types::presentation::DestinyCollectibleState;
use rustgie_types::presentation::DestinyPresentationNodeState;
use rustgie_types::presentation::DestinyRecordState;
use rustgie_types::profile::DestinyGameVersions;
use rustgie_types::progression::DestinyProgressionRewardItemState;
use rustgie_types::sockets::PlugUiStyles;
use rustgie_types::sockets::SocketPlugSources;
use rustgie_types::vendors::DestinyVendorItemState;
use rustgie_types::vendors::VendorItemStatus;

#[test]
fn destiny_progression_reward_item_state_flags_are_disjoint_bits() {
    let all = [DestinyProgressionRewardItemState::Invisible, DestinyProgressionRewardItemState::Earned, DestinyProgressionRewardItemState::Claimed, DestinyProgressionRewardItemState::ClaimAllowed];
    let mut mask = 0u32;
    for f in all {
        assert_eq!(f.value().count_ones(), 1);
        assert_eq!(mask & f.value(), 0);
        mask |= f.value();
    }
    assert_eq!(mask.count_ones() as usize, all.len());
}

#[test]
fn equipping_item_block_attributes_flags_are_disjoint_bits() {
    let all = [EquippingItemBlockAttributes::EquipOnAcquire];
    let mut mask = 0u32;
    for f in all {
        assert_eq!(f.value().count_ones(), 1);
        assert_eq!(mask & f.value(), 0);
        mask |= f.value();
    }
    assert_eq!(mask.count_ones() as usize, all.len());
}

#[test]
fn plug_ui_styles_flags_are_disjoint_bits() {
    let all = [PlugUiStyles::Masterwork];
    let mut mask = 0u32;
    for f in all {
        assert_eq!(f.value().count_ones(), 1);
        assert_eq!(mask & f.value(), 0);
        mask |= f.value();
    }
    assert_eq!(mask.count_ones() as usize, all.len());
}

#[test]
fn socket_plug_sources_flags_are_disjoint_bits() {
    let all = [SocketPlugSources::InventorySourced, SocketPlugSources::ReusablePlugItems, SocketPlugSources::ProfilePlugSet, SocketPlugSources::CharacterPlugSet];
    let mut mask = 0u32;
    for f in all {
        assert_eq!(f.value().count_ones(), 1);
        assert_eq!(mask & f.value(), 0);
        mask |= f.value();
    }
    assert_eq!(mask.count_ones() as usize, all.len());
}

#[test]
fn transfer_statuses_flags_are_disjoint_bits() {
    let all = [TransferStatuses::ItemIsEquipped, TransferStatuses::NotTransferrable, TransferStatuses::NoRoomInDestination];
    let mut mask = 0u32;
    for f in all {
        assert_eq!(f.value().count_ones(), 1);
        assert_eq!(mask & f.value(), 0);
        mask |= f.value();
    }
    assert_eq!(mask.count_ones() as usize, all.len());
}

#[test]
fn item_state_flags_are_disjoint_bits() {
    let all = [ItemState::Locked, ItemState::Tracked_, ItemState::Masterwork, ItemState::Crafted, ItemState::HighlightedObjective];
    let mut mask = 0u32;
    for f in all {
        assert_eq!(f.value().count_ones(), 1);
        assert_eq!(mask & f.value(), 0);
        mask |= f.value();
    }
    assert_eq!(mask.count_ones() as usize, all.len());
}

#[test]
fn destiny_game_versions_flags_are_disjoint_bits() {
    let all = [DestinyGameVersions::Destiny2, DestinyGameVersions::DLC1, DestinyGameVersions::DLC2, DestinyGameVersions::Forsaken, DestinyGameVersions::YearTwoAnnualPass, DestinyGameVersions::Shadowkeep, DestinyGameVersions::BeyondLight, DestinyGameVersions::Anniversary30th, DestinyGameVersions::TheWitchQueen, DestinyGameVersions::Lightfall];
    let mut mask = 0u32;
    for f in all {
        assert_eq!(f.value().count_ones(), 1);
        assert_eq!(mask & f.value(), 0);
        mask |= f.value();
    }
    assert_eq!(mask.count_ones() as usize, all.len());
}

#[test]
fn destiny_presentation_node_state_flags_are_disjoint_bits() {
    let all = [DestinyPresentationNodeState::Invisible, DestinyPresentationNodeState::Obscured];
    let mut mask = 0u32;
    for f in all {
        assert_eq!(f.value().count_ones(), 1);
        assert_eq!(mask & f.value(), 0);
        mask |= f.value();
    }
    assert_eq!(mask.count_ones() as usize, all.len());
}

#[test]
fn destiny_record_state_flags_are_disjoint_bits() {
    let all = [DestinyRecordState::RecordRedeemed, DestinyRecordState::RewardUnavailable, DestinyRecordState::ObjectiveNotCompleted, DestinyRecordState::Obscured, DestinyRecordState::Invisible, DestinyRecordState::EntitlementUnowned, DestinyRecordState::CanEquipTitle];
    let mut mask = 0u32;
    for f in all {
        assert_eq!(f.value().count_ones(), 1);
        assert_eq!(mask & f.value(), 0);
        mask |= f.value();
    }
    assert_eq!(mask.count_ones() as usize, all.len());
}

#[test]
fn destiny_collectible_state_flags_are_disjoint_bits() {
    let all = [DestinyCollectibleState::NotAcquired, DestinyCollectibleState::Obscured, DestinyCollectibleState::Invisible, DestinyCollectibleState::CannotAffordMaterialRequirements, DestinyCollectibleState::InventorySpaceUnavailable, DestinyCollectibleState::UniquenessViolation, DestinyCollectibleState::PurchaseDisabled];
    let mut mask = 0u32;
    for f in all {
        assert_eq!(f.value().count_ones(), 1);
        assert_eq!(mask & f.value(), 0);
        mask |= f.value();
    }
    assert_eq!(mask.count_ones() as usize, all.len());
}

#[test]
fn destiny_party_member_states_flags_are_disjoint_bits() {
    let all = [DestinyPartyMemberStates::FireteamMember, DestinyPartyMemberStates::PosseMember, DestinyPartyMemberStates::GroupMember, DestinyPartyMemberStates::PartyLeader];
    let mut mask = 0u32;
    for f in all {
        assert_eq!(f.value().count_ones(), 1);
        assert_eq!(mask & f.value(), 0);
        mask |= f.value();
    }
    assert_eq!(mask.count_ones() as usize, all.len());
}

#[test]
fn destiny_join_closed_reasons_flags_are_disjoint_bits() {
    let all = [DestinyJoinClosedReasons::InMatchmaking, DestinyJoinClosedReasons::Loading, DestinyJoinClosedReasons::SoloMode, DestinyJoinClosedReasons::InternalReasons, DestinyJoinClosedReasons::DisallowedByGameState, DestinyJoinClosedReasons::Offline];
    let mut mask = 0u32;
    for f in all {
        assert_eq!(f.value().count_ones(), 1);
        assert_eq!(mask & f.value(), 0);
        mask |= f.value();
    }
    assert_eq!(mask.count_ones() as usize, all.len());
}

#[test]
fn equip_failure_reason_flags_are_disjoint_bits() {
    let all = [EquipFailureReason::ItemUnequippable, EquipFailureReason::ItemUniqueEquipRestricted, EquipFailureReason::ItemFailedUnlockCheck, EquipFailureReason::ItemFailedLevelCheck, EquipFailureReason::ItemWrapped, EquipFailureReason::ItemNotLoaded, EquipFailureReason::ItemEquipBlocklisted, EquipFailureReason::ItemLoadoutRequirementNotMet];
    let mut mask = 0u32;
    for f in all {
        assert_eq!(f.value().count_ones(), 1);
        assert_eq!(mask & f.value(), 0);
        mask |= f.value();
    }
    assert_eq!(mask.count_ones() as usize, all.len());
}

#[test]
fn vendor_item_status_flags_are_disjoint_bits() {
    let all = [VendorItemStatus::NoInventorySpace, VendorItemStatus::NoFunds, VendorItemStatus::NoProgression, VendorItemStatus::NoUnlock, VendorItemStatus::NoQuantity, VendorItemStatus::OutsidePurchaseWindow, VendorItemStatus::NotAvailable, VendorItemStatus::UniquenessViolation, VendorItemStatus::UnknownError, VendorItemStatus::AlreadySelling, VendorItemStatus::Unsellable, VendorItemStatus::SellingInhibited, VendorItemStatus::AlreadyOwned, VendorItemStatus::DisplayOnly];
    let mut mask = 0u32;
    for f in all {
        assert_eq!(f.value().count_ones(), 1);
        assert_eq!(mask & f.value(), 0);
        mask |= f.value();
    }
    assert_eq!(mask.count_ones() as usize, all.len());
}

#[test]
fn destiny_vendor_item_state_flags_are_disjoint_bits() {
    let all = [DestinyVendorItemState::Incomplete, DestinyVendorItemState::RewardAvailable, DestinyVendorItemState::Complete, DestinyVendorItemState::New, DestinyVendorItemState::Featured, DestinyVendorItemState::Ending, DestinyVendorItemState::OnSale, DestinyVendorItemState::Owned, DestinyVendorItemState::WideView, DestinyVendorItemState::NexusAttention, DestinyVendorItemState::SetDiscount, DestinyVendorItemState::PriceDrop, DestinyVendorItemState::DailyOffer, DestinyVendorItemState::Charity, DestinyVendorItemState::SeasonalRewardExpiration, DestinyVendorItemState::BestDeal, DestinyVendorItemState::Popular, DestinyVendorItemState::Free, DestinyVendorItemState::Locked, DestinyVendorItemState::Paracausal, DestinyVendorItemState::Cryptarch];
    let mut mask = 0u32;
    for f in all {
        assert_eq!(f.value().count_ones(), 1);
        assert_eq!(mask & f.value(), 0);
        mask |= f.value();
    }
    assert_eq!(mask.count_ones() as usize, all.len());
}
