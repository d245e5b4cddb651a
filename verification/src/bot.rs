//! Bots and their ownership records.

use vstd::prelude::*;

use crate::attachment::Attachment;
use crate::user::User;

verus! {

/// Bot flag bitfield.
#[derive(Debug, Clone, Copy, PartialEq, Eq, Hash)]
pub struct BotFlags {
    pub bits: u64,
}

/// Public bot
#[derive(Debug, Clone)]
pub struct PublicBot {
    /// Bot Id
    pub id: String,
    /// Bot Username
    pub username: String,
    /// Profile Avatar
    pub avatar: Option<Attachment>,
    /// Profile Description
    pub description: Option<String>,
}

/// Representation of a bot on Revolt
#[derive(Debug, Clone)]
pub struct Bot {
    /// Bot Id
    ///
    /// This equals the associated bot user's id.
    pub id: String,
    /// User Id of the bot owner
    pub owner: String,
    /// Token used to authenticate requests for this bot
    pub token: String,
    /// Whether the bot is public
    /// (may be invited by anyone)
    pub public: bool,
    /// Whether to enable analytics
    pub analytics: bool,
    /// Whether this bot should be publicly discoverable
    pub discoverable: bool,
    /// Reserved; URL for handling interactions
    pub interactions_url: Option<String>,
    /// URL for terms of service
    pub terms_of_service_url: Option<String>,
    /// URL for privacy policy
    pub privacy_policy_url: Option<String>,
    /// Enum of bot flags
    pub flags: Option<BotFlags>,
}

/// Partial representation of a bot on Revolt
#[derive(Default, Debug, Clone)]
pub struct PartialBot {
    /// Bot Id
    ///
    /// This equals the associated bot user's id.
    pub id: Option<String>,
    /// User Id of the bot owner
    pub owner: Option<String>,
    /// Token used to authenticate requests for this bot
    pub token: Option<String>,
    /// Whether the bot is public
    /// (may be invited by anyone)
    pub public: Option<bool>,
    /// Whether to enable analytics
    pub analytics: Option<bool>,
    /// Whether this bot should be publicly discoverable
    pub discoverable: Option<bool>,
    /// Reserved; URL for handling interactions
    pub interactions_url: Option<String>,
    /// URL for terms of service
    pub terms_of_service_url: Option<String>,
    /// URL for privacy policy
    pub privacy_policy_url: Option<String>,
    /// Enum of bot flags
    pub flags: Option<BotFlags>,
}

/// Owned bot.
///
/// Contains bot and user information.
#[derive(Debug, Clone)]
pub struct OwnedBot {
    /// Bot object
    pub bot: Bot,
    /// User object
    pub user: User,
}

/// Optional fields on bot object
#[derive(Debug, PartialEq, Clone)]
pub enum FieldsBot {
    Token,
    InteractionsURL,
}

/// Owned bots.
///
/// Both lists are sorted by their IDs.
#[derive(Debug, Clone)]
pub struct OwnedBots {
    /// Bot objects
    pub bots: Vec<Bot>,
    /// User objects
    pub users: Vec<User>,
}

} // verus!
