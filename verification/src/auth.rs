//! Tokens: their claims and the request filter that looks at them.

pub mod claims;
pub mod middleware;
pub mod token;
