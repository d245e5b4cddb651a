//! Users, their status and their relationships.

use vstd::prelude::*;

use crate::attachment::Attachment;

verus! {

/// User's relationship with another user (or themselves)
#[derive(Debug, Clone, PartialEq)]
pub enum RelationshipStatus {
    NoRelation,
    User,
    Friend,
    Outgoing,
    Incoming,
    Blocked,
    BlockedOther,
}

/// Relationship entry indicating current status with other user
#[derive(Debug, Clone)]
pub struct Relationship {
    pub id: String,
    pub status: RelationshipStatus,
}

/// Presence status
#[derive(Debug, Clone, PartialEq)]
pub enum Presence {
    Online,
    Idle,
    Busy,
    Invisible,
}

/// User's active status
#[derive(Debug, Clone, Default)]
pub struct UserStatus {
    /// Custom status text
    pub text: Option<String>,
    /// Current presence option
    pub presence: Option<Presence>,
}

/// User's profile
#[derive(Debug, Clone, Default)]
pub struct UserProfile {
    /// Text content on user's profile
    pub content: Option<String>,
    /// Background visible on user's profile
    pub background: Option<Attachment>,
}

/// Profile data submitted when editing a user.
#[derive(Debug, Clone, Default)]
pub struct PartialUserProfile {
    /// Text content on user's profile
    pub content: Option<String>,
    /// Attachment Id for the profile background
    pub background: Option<String>,
}

/// Bot information for if the user is a bot
#[derive(Debug, Clone)]
pub struct BotInformation {
    /// Id of the owner of this bot
    pub owner: String,
}

/// Representiation of a User on Revolt.
#[derive(Debug, Clone)]
pub struct User {
    /// Unique Id
    pub id: String,
    /// Username
    pub username: String,
    /// Avatar attachment
    pub avatar: Option<Attachment>,
    /// Relationships with other users
    pub relations: Option<Vec<Relationship>>,
    /// Bitfield of user badges
    pub badges: Option<i32>,
    /// User's current status
    pub status: Option<UserStatus>,
    /// User's profile page
    pub profile: Option<UserProfile>,
    /// Enum of user flags
    pub flags: Option<i32>,
    /// Whether this user is privileged
    pub privileged: bool,
    /// Bot information
    pub bot: Option<BotInformation>,
    /// Current session user's relationship with this user
    pub relationship: Option<RelationshipStatus>,
    /// Whether this user is currently online
    pub online: Option<bool>,
}

/// Partial representiation of a User on Revolt.
#[derive(Debug, Clone)]
pub struct PartialUser {
    /// Unique Id
    pub id: Option<String>,
    /// Username
    pub username: Option<String>,
    /// Avatar attachment
    pub avatar: Option<Attachment>,
    /// Relationships with other users
    pub relations: Option<Vec<Relationship>>,
    /// Bitfield of user badges
    pub badges: Option<i32>,
    /// User's current status
    pub status: Option<UserStatus>,
    /// User's profile page
    pub profile: Option<UserProfile>,
    /// Enum of user flags
    pub flags: Option<i32>,
    /// Whether this user is privileged
    pub privileged: Option<bool>,
    /// Bot information
    pub bot: Option<BotInformation>,
    /// Current session user's relationship with this user
    pub relationship: Option<RelationshipStatus>,
    /// Whether this user is currently online
    pub online: Option<bool>,
}

/// Optional fields on user object
#[derive(Debug, PartialEq, Clone)]
pub enum FieldsUser {
    Avatar,
    StatusText,
    StatusPresence,
    ProfileContent,
    ProfileBackground,
}

} // verus!
