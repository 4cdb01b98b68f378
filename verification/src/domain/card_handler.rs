//! The card commands as the command line starts them. What a command does
//! with a repository is not settled yet: each reports that it is not
//! implemented, for every account.

use crate::config::account_entity::Account;
use crate::domain::card_repository::{not_implemented, unimplemented};
use crate::error::Error;
use vstd::prelude::*;

verus! {

/// Creates a card.
pub fn create(_raw_card: &str, _account: &Account) -> (result: Result<(), Error>)
    ensures
        result.is_err(),
        result.unwrap_err()@ == unimplemented("cannot create card: not implemented"@),
{
    Err(not_implemented("cannot create card: not implemented"))
}

/// Reads a card.
pub fn read(_id: &str, _account: &Account) -> (result: Result<(), Error>)
    ensures
        result.is_err(),
        result.unwrap_err()@ == unimplemented("cannot read card: not implemented"@),
{
    Err(not_implemented("cannot read card: not implemented"))
}

/// Updates a card.
pub fn update(_id: &str, _raw_card: &str, _account: &Account) -> (result: Result<(), Error>)
    ensures
        result.is_err(),
        result.unwrap_err()@ == unimplemented("cannot update card: not implemented"@),
{
    Err(not_implemented("cannot update card: not implemented"))
}

/// Deletes a card.
pub fn delete(_id: &str, _account: &Account) -> (result: Result<(), Error>)
    ensures
        result.is_err(),
        result.unwrap_err()@ == unimplemented("cannot delete card: not implemented"@),
{
    Err(not_implemented("cannot delete card: not implemented"))
}

} // verus!
