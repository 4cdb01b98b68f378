//! The record that is exchanged with the server.

use crate::date::Timestamp;
use crate::error::opt_text;
use vstd::prelude::*;

verus! {

/// The version token that the server assigns to a card.
pub type Etag = Option<String>;

/// A contact. `etag` is `None` until the server has assigned one; `raw` is
/// the whole vCard, from `BEGIN` to `END`, with the line endings of the
/// server.
#[derive(Debug, Clone, PartialEq, Eq)]
pub struct Card {
    pub id: String,
    pub etag: Etag,
    pub date: Timestamp,
    pub raw: String,
}

/// The content of a [`Card`].
pub ghost struct CardView {
    pub id: Seq<char>,
    pub etag: Option<Seq<char>>,
    pub date: Timestamp,
    pub raw: Seq<char>,
}

impl View for Card {
    type V = CardView;

    open spec fn view(&self) -> CardView {
        CardView { id: self.id@, etag: opt_text(self.etag), date: self.date, raw: self.raw@ }
    }
}

} // verus!
