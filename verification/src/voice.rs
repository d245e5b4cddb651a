//! Voice server data.

use vstd::prelude::*;

verus! {

/// Voice server authentication response
#[derive(Debug, Clone)]
pub struct VoiceAuthenticationData {
    /// Token for authenticating with the voice server
    pub token: String,
}

} // verus!
