pub mod credential;
pub mod handler;
pub mod store;
pub mod token;
pub mod validate;

use vstd::prelude::*;

verus! {

/// Number of seconds a freshly issued token remains valid.
pub const TOKEN_LIFETIME_SECS: u64 = 86400;

} // verus!
