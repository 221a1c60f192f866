//! Every type of the library under one path.

pub use crate::activities::{
    ActivityGraphNodeHighlightType,
    DestinyActivity,
    DestinyActivityDifficultyTier,
    DestinyActivityModeCategory,
    DestinyActivityNavPointType,
    DestinyGamePrivacySetting,
    DestinyJoinClosedReasons,
    DestinyPartyMemberStates,
};
pub use crate::items::{
    BucketCategory,
    BucketScope,
    DamageType,
    DestinyAmmunitionType,
    DestinyBreakerType,
    DestinyEnergyType,
    DestinyEquipItemResult,
    DestinyEquipItemResults,
    DestinyItemQuantity,
    DestinyItemSortType,
    DestinyItemSubType,
    DestinyItemType,
    DyeReference,
    EquipFailureReason,
    EquippingItemBlockAttributes,
    ItemBindStatus,
    ItemLocation,
    ItemPerkVisibility,
    ItemState,
    SpecialItemType,
    TierType,
    TransferStatuses,
};
pub use crate::presentation::{
    DestinyCollectibleState,
    DestinyGraphNodeState,
    DestinyObjectiveGrantStyle,
    DestinyObjectiveUiStyle,
    DestinyPresentationDisplayStyle,
    DestinyPresentationNodeState,
    DestinyPresentationNodeType,
    DestinyPresentationScreenStyle,
    DestinyRecordState,
    DestinyRecordToastStyle,
    DestinyRecordValueStyle,
    DestinyScope,
    DestinyUnlockValueUIStyle,
};
pub use crate::profile::{
    DestinyClass,
    DestinyComponentType,
    DestinyGameVersions,
    DestinyGender,
    DestinyRace,
    DestinyUnlockStatus,
};
pub use crate::progression::{
    DestinyProgression,
    DestinyProgressionResetEntry,
    DestinyProgressionRewardItemAcquisitionBehavior,
    DestinyProgressionRewardItemState,
    DestinyProgressionScope,
    DestinyProgressionStepDisplayEffect,
};
pub use crate::sockets::{
    DestinySocketCategoryStyle,
    DestinySocketVisibility,
    PlugAvailabilityMode,
    PlugUiStyles,
    SocketPlugSources,
    SocketTypeActionType,
};
pub use crate::stats::{
    DestinyStat,
    DestinyStatAggregationType,
    DestinyStatCategory,
    DestinyTalentNodeStatBlock,
    DestinyTalentNodeState,
};
pub use crate::vendors::{
    DestinyGatingScope,
    DestinyVendorFilter,
    DestinyVendorInteractionRewardSelection,
    DestinyVendorItemRefundPolicy,
    DestinyVendorItemState,
    DestinyVendorProgressionType,
    DestinyVendorReplyType,
    VendorDisplayCategorySortOrder,
    VendorInteractionType,
    VendorItemStatus,
};
