//! Channels of every kind.

use std::collections::HashMap;

use vstd::prelude::*;

use crate::attachment::Attachment;
use crate::permission::OverrideField;

verus! {

/// Representation of a channel on Revolt
#[derive(Debug, Clone)]
pub enum Channel {
    /// Personal "Saved Notes" channel which allows users to save messages
    SavedMessages {
        /// Unique Id
        id: String,
        /// Id of the user this channel belongs to
        user: String,
    },
    /// Direct message channel between two users
    DirectMessage {
        /// Unique Id
        id: String,
        /// Whether this direct message channel is currently open on both sides
        active: bool,
        /// 2-tuple of user ids participating in direct message
        recipients: Vec<String>,
        /// Id of the last message sent in this channel
        last_message_id: Option<String>,
    },
    /// Group channel between 1 or more participants
    Group {
        /// Unique Id
        id: String,
        /// Display name of the channel
        name: String,
        /// User id of the owner of the group
        owner: String,
        /// Channel description
        description: Option<String>,
        /// Array of user ids participating in channel
        recipients: Vec<String>,
        /// Custom icon attachment
        icon: Option<Attachment>,
        /// Id of the last message sent in this channel
        last_message_id: Option<String>,
        /// Permissions assigned to members of this group
        /// (does not apply to the owner of the group)
        permissions: Option<i64>,
        /// Whether this group is marked as not safe for work
        nsfw: bool,
    },
    /// Text channel belonging to a server
    TextChannel {
        /// Unique Id
        id: String,
        /// Id of the server this channel belongs to
        server: String,
        /// Display name of the channel
        name: String,
        /// Channel description
        description: Option<String>,
        /// Custom icon attachment
        icon: Option<Attachment>,
        /// Id of the last message sent in this channel
        last_message_id: Option<String>,
        /// Default permissions assigned to users in this channel
        default_permissions: Option<OverrideField>,
        /// Permissions assigned based on role to this channel
        role_permissions: HashMap<String, OverrideField>,
        /// Whether this channel is marked as not safe for work
        nsfw: bool,
    },
    /// Voice channel belonging to a server
    VoiceChannel {
        /// Unique Id
        id: String,
        /// Id of the server this channel belongs to
        server: String,
        /// Display name of the channel
        name: String,
        /// Channel description
        description: Option<String>,
        /// Custom icon attachment
        icon: Option<Attachment>,
        /// Default permissions assigned to users in this channel
        default_permissions: Option<OverrideField>,
        /// Permissions assigned based on role to this channel
        role_permissions: HashMap<String, OverrideField>,
        /// Whether this channel is marked as not safe for work
        nsfw: bool,
    },
}

/// Kind of channel requested when creating one.
#[derive(Debug, Clone, PartialEq)]
pub enum ChannelType {
    Text,
    Voice,
}

impl Default for ChannelType {
    /// Text channels are the default kind.
    fn default() -> (r: ChannelType)
        ensures
            r is Text,
    {
        ChannelType::Text
    }
}

/// Partial values of [Channel]
#[derive(Debug, Default, Clone)]
pub struct PartialChannel {
    /// Display name of the channel
    pub name: Option<String>,
    /// User id of the owner of the group
    pub owner: Option<String>,
    /// Channel description
    pub description: Option<String>,
    /// Custom icon attachment
    pub icon: Option<Attachment>,
    /// Whether this channel is marked as not safe for work
    pub nsfw: Option<bool>,
    /// Whether this direct message channel is currently open on both sides
    pub active: Option<bool>,
    /// Permissions assigned to members of this channel
    pub permissions: Option<i64>,
    /// Permissions assigned based on role to this channel
    pub role_permissions: Option<HashMap<String, OverrideField>>,
    /// Default permissions assigned to users in this channel
    pub default_permissions: Option<OverrideField>,
    /// Id of the last message sent in this channel
    pub last_message_id: Option<String>,
}

/// Optional fields on channel object
#[derive(Debug, PartialEq, Clone)]
pub enum FieldsChannel {
    Description,
    Icon,
    DefaultPermissions,
}

} // verus!
