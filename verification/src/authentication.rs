//! Credentials attached to REST requests.

use vstd::prelude::*;

verus! {

/// A credential, together with the kind of header it travels in.
#[derive(Debug, Clone, Hash, PartialEq, Eq, PartialOrd, Ord)]
pub enum Authentication {
    SessionToken(String),
    BotToken(String),
    ValidMfaTicket(String),
    UnvalidatedMfaTicket(String),
}

impl Authentication {
    /// Name of the request header that carries this kind of credential.
    pub open spec fn spec_header_key(&self) -> Seq<char> {
        match self {
            Authentication::SessionToken(_) => "x-session-token"@,
            Authentication::BotToken(_) => "x-bot-token"@,
            Authentication::ValidMfaTicket(_) => "x-mfa-ticket"@,
            Authentication::UnvalidatedMfaTicket(_) => "x-mfa-ticket"@,
        }
    }

    /// The credential string itself.
    pub open spec fn spec_value(&self) -> Seq<char> {
        match self {
            Authentication::SessionToken(t) => t@,
            Authentication::BotToken(t) => t@,
            Authentication::ValidMfaTicket(t) => t@,
            Authentication::UnvalidatedMfaTicket(t) => t@,
        }
    }

    pub fn header_key(&self) -> (r: String)
        ensures
            r@ == self.spec_header_key(),
    {
        match self {
            Authentication::SessionToken(_) => "x-session-token".to_owned(),
            Authentication::BotToken(_) => "x-bot-token".to_owned(),
            Authentication::ValidMfaTicket(_) => "x-mfa-ticket".to_owned(),
            Authentication::UnvalidatedMfaTicket(_) => "x-mfa-ticket".to_owned(),
        }
    }

    pub fn value(&self) -> (r: String)
        ensures
            r@ == self.spec_value(),
    {
        match self {
            Authentication::SessionToken(t) => t.clone(),
            Authentication::BotToken(t) => t.clone(),
            Authentication::ValidMfaTicket(t) => t.clone(),
            Authentication::UnvalidatedMfaTicket(t) => t.clone(),
        }
    }
}

} // verus!
