//! Messages and the pieces they are built from.

use vstd::prelude::*;

verus! {

/// A message received in a channel.
#[derive(Debug, Clone, Hash, PartialEq, Eq, PartialOrd, Ord)]
pub struct Message {
    pub content: Option<String>,
    pub system: Option<SystemMessage>,
    pub channel: String,
}

/// A message generated by the system rather than a user.
#[derive(Debug, Clone, Eq, PartialEq, Ord, PartialOrd, Hash)]
pub enum SystemMessage {
    Text { content: String },
    UserAdded { id: String, by: String },
    UserRemove { id: String, by: String },
    UserJoined { id: String },
    UserLeft { id: String },
    UserKicked { id: String },
    UserBanned { id: String },
    ChannelRenamed { name: String, by: String },
    ChannelDescriptionChanged { by: String },
    ChannelIconChanged { by: String },
}

/// Reference to a message being replied to.
#[derive(Debug, Clone)]
pub struct Reply {
    /// Id of the message being replied to
    pub id: String,
    /// Whether the author should be mentioned
    pub mention: bool,
}

/// Name and avatar shown in place of the author's.
#[derive(Debug, Clone)]
pub struct Masquerade {
    /// Replacement display name
    pub name: Option<String>,
    /// Replacement avatar URL
    pub avatar: Option<String>,
    /// Replacement role colour
    pub colour: Option<String>,
}

/// How a message may be interacted with.
#[derive(Debug, Clone)]
pub struct Interactions {
    /// Reactions that may be added to the message
    pub reactions: Option<Vec<String>>,
    /// Whether reactions are restricted to the list above
    pub restrict_reactions: bool,
}

/// Sort order for message queries.
#[derive(Debug, Clone, PartialEq)]
pub enum MessageSort {
    Relevance,
    Latest,
    Oldest,
}

} // verus!
