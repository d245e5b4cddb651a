//! Custom emojis.

use vstd::prelude::*;

verus! {

/// Information about what owns this emoji
#[derive(Debug, Clone)]
pub enum EmojiParent {
    Server { id: String },
    Detached,
}

/// Representation of an Emoji on Revolt
#[derive(Debug, Clone)]
pub struct Emoji {
    /// Unique Id
    pub id: String,
    /// What owns this emoji
    pub parent: EmojiParent,
    /// Uploader user id
    pub creator_id: String,
    /// Emoji name
    pub name: String,
    /// Whether the emoji is animated
    pub animated: bool,
    /// Whether the emoji is marked as nsfw
    pub nsfw: bool,
}

} // verus!
