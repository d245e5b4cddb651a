//! Errors returned by the REST API.

use vstd::prelude::*;

use crate::permission::Permission;
use crate::permission::UserPermission;

verus! {

/// Error reported by the REST API.
#[derive(Debug, Clone, Eq, PartialEq, Ord, PartialOrd, Hash)]
pub enum ApiError {
    LabelMe,
    // Onboarding related errors
    AlreadyOnboarded,
    // User related errors
    UsernameTaken,
    InvalidUsername,
    UnknownUser,
    AlreadyFriends,
    AlreadySentRequest,
    Blocked,
    BlockedByOther,
    NotFriends,
    // Channel related errors
    UnknownChannel,
    UnknownAttachment,
    UnknownMessage,
    CannotEditMessage,
    CannotJoinCall,
    TooManyAttachments,
    TooManyReplies,
    EmptyMessage,
    PayloadTooLarge,
    CannotRemoveYourself,
    GroupTooLarge { max: usize },
    AlreadyInGroup,
    NotInGroup,
    // Server related errors
    UnknownServer,
    InvalidRole,
    Banned,
    TooManyServers { max: usize },
    TooManyEmoji,
    // Bot related errors
    ReachedMaximumBots,
    IsBot,
    BotIsPrivate,
    // Permission errors
    MissingPermission { permission: Permission },
    MissingUserPermission { permission: UserPermission },
    NotElevated,
    CannotGiveMissingPermissions,
    NotOwner,
    // General errors
    DatabaseError { operation: String, with: String },
    InternalError,
    InvalidOperation,
    InvalidCredentials,
    InvalidSession,
    DuplicateNonce,
    VosoUnavailable,
    NotFound,
    NoEffect,
    FailedValidation,
    // Other errors that the API does not return but are still API related
    Unauthenticated,
}

} // verus!
