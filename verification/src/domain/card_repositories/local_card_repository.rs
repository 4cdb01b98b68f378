//! The repository that keeps its cards in a directory. How the cards are
//! laid out there is not settled, so every operation reports that it is
//! not implemented.

use crate::domain::card_entity::Card;
use crate::domain::card_repository::{not_implemented, unimplemented, CardRepository};
use crate::error::Error;
use vstd::prelude::*;

verus! {

/// A repository in a directory of the machine.
#[derive(Debug, Clone, Copy, PartialEq, Eq, Default)]
pub struct LocalCardRepository;

impl CardRepository for LocalCardRepository {
    fn create(&self, card: &mut Card) -> (result: Result<(), Error>)
        ensures
            result.is_err(),
            result.unwrap_err()@ == unimplemented("cannot create card: not implemented"@),
            *final(card) == *old(card),
    {
        Err(not_implemented("cannot create card: not implemented"))
    }

    fn read(&self, id: &str) -> (result: Result<Card, Error>)
        ensures
            result.is_err(),
            result.unwrap_err()@ == unimplemented("cannot read card: not implemented"@),
    {
        Err(not_implemented("cannot read card: not implemented"))
    }

    fn read_all(&self) -> (result: Result<Vec<Card>, Error>)
        ensures
            result.is_err(),
            result.unwrap_err()@ == unimplemented("cannot read all cards: not implemented"@),
    {
        Err(not_implemented("cannot read all cards: not implemented"))
    }

    fn update(&self, card: &mut Card) -> (result: Result<(), Error>)
        ensures
            result.is_err(),
            result.unwrap_err()@ == unimplemented("cannot update card: not implemented"@),
            *final(card) == *old(card),
    {
        Err(not_implemented("cannot update card: not implemented"))
    }

    fn delete(&self, card: &Card) -> (result: Result<(), Error>)
        ensures
            result.is_err(),
            result.unwrap_err()@ == unimplemented("cannot delete card: not implemented"@),
    {
        Err(not_implemented("cannot delete card: not implemented"))
    }
}

} // verus!
