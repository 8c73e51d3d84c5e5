use vstd::prelude::*;

verus! {

/// The account that owns the configured credential.
#[derive(Clone, Debug, PartialEq)]
pub struct User {
    pub id: String,
    pub nickname: String,
}

} // verus!
