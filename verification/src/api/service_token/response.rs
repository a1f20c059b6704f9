use vstd::prelude::*;

use crate::models::LoginResult;

verus! {

/// The answer of the authentication service: the logins it issued.
#[derive(Clone, Debug)]
pub struct Response {
    pub message: String,
    pub data: Vec<LoginResult>,
}

} // verus!
