//! Builders for request payloads.

use vstd::prelude::*;

use crate::payload::SendMessagePayload;

verus! {

/// Step-by-step construction of a [`SendMessagePayload`].
#[derive(Clone, Debug)]
pub struct SendMessagePayloadBuilder {
    content: Option<String>,
}

impl SendMessagePayloadBuilder {
    /// The content the builder holds so far.
    pub closed spec fn spec_content(&self) -> Option<Seq<char>> {
        match self.content {
            Option::Some(c) => Option::Some(c@),
            Option::None => Option::None,
        }
    }

    /// An empty builder.
    pub fn new() -> (r: Self)
        ensures
            r.spec_content() is None,
    {
        SendMessagePayloadBuilder { content: None }
    }

    /// Sets the message content.
    pub fn content(self, content: String) -> (r: Self)
        ensures
            r.spec_content() == Option::Some(content@),
    {
        SendMessagePayloadBuilder { content: Some(content) }
    }

    /// Finishes the payload; fields the builder does not cover stay empty.
    pub fn build(self) -> (r: SendMessagePayload)
        ensures
            match (r.content, self.spec_content()) {
                (Option::Some(a), Option::Some(b)) => a@ == b,
                (Option::None, Option::None) => true,
                _ => false,
            },
            r.attachments is None,
            r.replies is None,
            r.embeds is None,
            r.masquerade is None,
            r.interactions is None,
    {
        SendMessagePayload {
            content: self.content,
            attachments: None,
            replies: None,
            embeds: None,
            masquerade: None,
            interactions: None,
        }
    }
}

/// A type that has a builder.
pub trait BuilderExt<T> {
    /// A fresh builder for this type.
    fn builder() -> T;
}

impl BuilderExt<SendMessagePayloadBuilder> for SendMessagePayload {
    fn builder() -> SendMessagePayloadBuilder {
        SendMessagePayloadBuilder::new()
    }
}

} // verus!
