//! What a repository of cards can do.

use crate::domain::card_entity::Card;
use crate::error::{Error, ErrorKind, ErrorView};
use vstd::prelude::*;

verus! {

/// The operations of a repository, whatever keeps the cards.
pub trait CardRepository {
    /// Stores a new card.
    fn create(&self, card: &mut Card) -> Result<(), Error>;

    /// Gives the card of an id.
    fn read(&self, id: &str) -> Result<Card, Error>;

    /// Gives all the cards.
    fn read_all(&self) -> Result<Vec<Card>, Error>;

    /// Stores a card in place of the version that the caller has seen.
    fn update(&self, card: &mut Card) -> Result<(), Error>;

    /// Removes a card.
    fn delete(&self, card: &Card) -> Result<(), Error>;
}

/// The error of an operation that is deliberately left without behaviour:
/// the words say which.
pub open spec fn unimplemented(words: Seq<char>) -> ErrorView {
    ErrorView { kind: ErrorKind::NotImplemented, context: words, reason: None }
}

/// The error of an operation that is deliberately left without behaviour.
pub fn not_implemented(words: &str) -> (e: Error)
    ensures
        e@ == unimplemented(words@),
{
    Error::new(ErrorKind::NotImplemented, String::from_str(words))
}

} // verus!
