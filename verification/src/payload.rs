//! Request bodies accepted by the REST API.

use vstd::prelude::*;

use crate::bot::FieldsBot;
use crate::channel::ChannelType;
use crate::channel::FieldsChannel;
use crate::embed::SendableEmbed;
use crate::message::Interactions;
use crate::message::Masquerade;
use crate::message::MessageSort;
use crate::message::Reply;
use crate::permission::Override;
use crate::permission::Permission;
use crate::server::Category;
use crate::server::FieldsServer;
use crate::server::SystemMessageChannels;
use crate::user::FieldsUser;
use crate::user::PartialUserProfile;
use crate::user::UserStatus;

verus! {

/// Message send data
#[derive(Debug, Clone)]
pub struct SendMessagePayload {
    /// Message content to send
    pub content: Option<String>,
    /// Attachments to include in message
    pub attachments: Option<Vec<String>>,
    /// Messages to reply to
    pub replies: Option<Vec<Reply>>,
    /// Embeds to include in message
    ///
    /// Text embed content contributes to the content length cap
    pub embeds: Option<Vec<SendableEmbed>>,
    /// Masquerade to apply to this message
    pub masquerade: Option<Masquerade>,
    /// Information about how this message should be interacted with
    pub interactions: Option<Interactions>,
}

/// User data
#[derive(Debug, Clone)]
pub struct EditUserPayload {
    /// New user status
    pub status: Option<UserStatus>,
    /// New user profile data
    ///
    /// This is applied as a partial.
    pub profile: Option<PartialUserProfile>,
    /// Attachment ID for avatar
    pub avatar: Option<String>,
    /// Fields to remove from user object
    pub remove: Option<Vec<FieldsUser>>,
}

/// Change username data
#[derive(Debug, Clone)]
pub struct ChangeUsernamePayload {
    /// New username
    pub username: String,
    /// Current username password
    pub password: String,
}

/// Send friend request data
#[derive(Debug, Clone)]
pub struct SendFriendRequestPayload {
    /// Friend's username
    pub username: String,
}

/// Edit channel data
#[derive(Debug, Clone)]
pub struct EditChannelPayload {
    /// Channel name
    pub name: Option<String>,
    /// Channel description
    pub description: Option<String>,
    /// Group owner
    pub owner: Option<String>,
    /// Icon attachment ID
    pub icon: Option<String>,
    /// Whether this channel is age-restricted
    pub nsfw: Option<bool>,
    /// Fields to remove
    pub remove: Option<Vec<FieldsChannel>>,
}

/// Set role permission payload data
#[derive(Debug, Clone)]
pub struct SetRolePermissionPayload {
    /// Representation of a single permission override
    pub permissions: Override,
}

/// Set default permission payload data
#[derive(Debug, Clone)]
pub enum SetDefaultPermissionPayload {
    Value {
        /// Permission values to set for members in a group channel
        permissions: Permission,
    },
    Field {
        /// Allow / deny values to set for members in this text or voice channel
        permissions: Override,
    },
}

/// Query parameters
#[derive(Debug, Clone)]
pub struct FetchMessagesPayload {
    /// Maximum number of messages to fetch
    ///
    /// For fetching nearby messages, this is `(limit + 1)`.
    pub limit: Option<i64>,
    /// Message id before which messages should be fetched
    pub before: Option<String>,
    /// Message id after which messages should be fetched
    pub after: Option<String>,
    /// Message sort direction
    pub sort: Option<MessageSort>,
    /// Message id to search around
    ///
    /// Specifying 'nearby' ignores 'before', 'after' and 'sort'.
    /// It will also take half of limit rounded as the limits to each side.
    /// It also fetches the message ID specified.
    pub nearby: Option<String>,
    /// Whether to include user (and member, if server channel) objects
    pub include_users: Option<bool>,
}

/// Search Parameters
#[derive(Debug, Clone)]
pub struct SearchForMessagesPayload {
    /// Full-text search query
    pub query: String,
    /// Maximum number of messages to fetch
    pub limit: Option<i64>,
    /// Message id before which messages should be fetched
    pub before: Option<String>,
    /// Message id after which messages should be fetched
    pub after: Option<String>,
    /// Message sort direction
    ///
    /// By default, it will be sorted by relevance.
    pub sort: Option<MessageSort>,
    /// Whether to include user (and member, if server channel) objects
    pub include_users: Option<bool>,
}

/// Message details
#[derive(Debug, Clone)]
pub struct EditMessagePayload {
    /// New message content
    pub content: Option<String>,
    /// Embeds to include in the message
    pub embeds: Option<Vec<SendableEmbed>>,
}

/// Search parameters
#[derive(Debug, Clone)]
pub struct BulkDeleteMessagesPayload {
    /// Message IDs
    pub ids: Vec<String>,
}

/// Reactions remove options
#[derive(Debug, Clone)]
pub struct RemoveReactionToMessagePayload {
    /// Remove a specific user's reaction
    pub user_id: Option<String>,
    /// Remove all reactions
    pub remove_all: Option<bool>,
}

/// Group create data
#[derive(Debug, Clone)]
pub struct CreateGroupPayload {
    /// Group name
    pub name: String,
    /// Group description
    pub description: Option<String>,
    /// Array of user IDs to add to the group
    ///
    /// Must be friends with these users.
    pub users: Vec<String>,
    /// Whether this group is age-restricted
    pub nsfw: Option<bool>,
}

/// Bot create data
#[derive(Debug, Clone)]
pub struct CreateBotPayload {
    /// Bot username
    pub name: String,
}

/// Bot invite data
#[derive(Debug, Clone)]
pub enum InviteBotPayload {
    /// Invite to a server
    Server {
        /// Server Id
        server: String,
    },
    /// Invite to a group
    Group {
        /// Group Id
        group: String,
    },
}

/// Bot edit data
#[derive(Debug, Clone)]
pub struct EditBotPayload {
    /// Bot username
    pub name: Option<String>,
    /// Whether the bot can be added by anyone
    pub public: Option<bool>,
    /// Whether analytics should be gathered for this bot
    pub analytics: Option<bool>,
    /// Interactions URL
    pub interactions_url: Option<String>,
    /// Fields to remove from bot object
    pub remove: Option<Vec<FieldsBot>>,
}

/// Create server data
#[derive(Debug, Clone)]
pub struct CreateServerPayload {
    /// Server name
    pub name: String,
    /// Server description
    pub description: Option<String>,
    /// Whether this server is age-restricted
    pub nsfw: Option<bool>,
}

/// Edit server data
#[derive(Debug, Clone)]
pub struct EditServerPayload {
    /// Server name
    pub name: Option<String>,
    /// Server description
    pub description: Option<String>,
    /// Attachment Id for icon
    pub icon: Option<String>,
    /// Attachment Id for banner
    pub banner: Option<String>,
    /// Category structure for server
    pub categories: Option<Vec<Category>>,
    /// System message configuration
    pub system_messages: Option<SystemMessageChannels>,
    /// Whether this server is age-restricted
    pub nsfw: Option<bool>,
    /// Whether this server is public and should show up on server discovery
    pub discoverable: Option<bool>,
    /// Whether analytics should be collected for this server
    pub analytics: Option<bool>,
    /// Fields to remove from server object
    pub remove: Option<Vec<FieldsServer>>,
}

/// Create channel data
#[derive(Debug, Clone)]
pub struct CreateChannelPayload {
    /// Channel type
    pub channel_type: ChannelType,
    /// Channel name
    pub name: String,
    /// Channel description
    pub description: Option<String>,
    /// Whether this channel is age restricted
    pub nsfw: Option<bool>,
}

} // verus!
