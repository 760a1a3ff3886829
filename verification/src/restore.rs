//! Restoring a password: the claims of its token.

use crate::token::{Token, TokenType};
use vstd::prelude::*;

verus! {

/// The claims of a token for restoring a password.
#[derive(Debug, PartialEq, Eq)]
pub struct TokenData {
    pub email: String,
    pub exp: u64,
    pub token_type: TokenType,
}

impl Token for TokenData {
    open spec fn expiry(&self) -> u64 {
        self.exp
    }

    open spec fn kind(&self) -> TokenType {
        self.token_type
    }

    fn exp(&self) -> (exp: u64) {
        self.exp
    }

    fn token_type(&self) -> (token_type: TokenType) {
        self.token_type
    }
}

} // verus!
