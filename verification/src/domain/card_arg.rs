//! The card commands of the command line.

use crate::error::Error;
use crate::text::str_eq;
use vstd::prelude::*;

verus! {

/// A card command.
#[derive(Debug, PartialEq, Eq)]
pub enum Cmd<'a> {
    /// Create a card from a vCard.
    Create(&'a str),
    /// Read the card of an id.
    Read(&'a str),
    /// Replace the vCard of the card of an id.
    Update(&'a str, &'a str),
    /// Delete the card of an id.
    Delete(&'a str),
}

/// The content of a [`Cmd`].
pub ghost enum CmdView {
    Create(Seq<char>),
    Read(Seq<char>),
    Update(Seq<char>, Seq<char>),
    Delete(Seq<char>),
}

impl<'a> View for Cmd<'a> {
    type V = CmdView;

    open spec fn view(&self) -> CmdView {
        match *self {
            Cmd::Create(card) => CmdView::Create(card@),
            Cmd::Read(id) => CmdView::Read(id@),
            Cmd::Update(id, card) => CmdView::Update(id@, card@),
            Cmd::Delete(id) => CmdView::Delete(id@),
        }
    }
}

/// The subcommand that the command line held, under its own name whatever
/// alias was typed, with the arguments that were given.
#[derive(Debug, Clone, PartialEq, Eq)]
pub struct SubcommandMatches {
    pub name: String,
    pub id: Option<String>,
    pub card: Option<String>,
}

/// Whether a subcommand of this name takes the id of a card.
pub open spec fn takes_id(name: Seq<char>) -> bool {
    name == "read"@ || name == "update"@ || name == "delete"@
}

/// The vCard that was given, or the empty one.
pub open spec fn card_or_empty(card: Option<String>) -> Seq<char> {
    match card {
        Some(text) => text@,
        None => Seq::empty(),
    }
}

/// The command that a subcommand stands for, if it is a card command.
pub open spec fn matched(m: Option<SubcommandMatches>) -> Option<CmdView> {
    match m {
        None => None,
        Some(sub) => if sub.name@ == "create"@ {
            Some(CmdView::Create(card_or_empty(sub.card)))
        } else if sub.name@ == "read"@ {
            Some(CmdView::Read(sub.id->Some_0@))
        } else if sub.name@ == "update"@ {
            Some(CmdView::Update(sub.id->Some_0@, card_or_empty(sub.card)))
        } else if sub.name@ == "delete"@ {
            Some(CmdView::Delete(sub.id->Some_0@))
        } else {
            None
        },
    }
}

/// Whether the arguments that a subcommand requires are there.
pub open spec fn complete(m: Option<SubcommandMatches>) -> bool {
    match m {
        Some(sub) => takes_id(sub.name@) ==> sub.id.is_some(),
        None => true,
    }
}

/// Tells whether the arguments that a subcommand requires are there.
pub fn is_complete(m: &Option<SubcommandMatches>) -> (r: bool)
    ensures
        r == complete(*m),
{
    match m {
        Some(sub) => {
            let name = sub.name.as_str();
            let with_id = str_eq(name, "read") || str_eq(name, "update") || str_eq(name, "delete");
            !with_id || sub.id.is_some()
        },
        None => true,
    }
}

/// Tells which card command the command line held, if any. The command
/// line parser sees to it that a subcommand with an id has one.
pub fn matches<'a>(m: &'a Option<SubcommandMatches>) -> (result: Result<Option<Cmd<'a>>, Error>)
    requires
        complete(*m),
    ensures
        result.is_ok(),
        match result.unwrap() {
            Some(cmd) => matched(*m) == Some(cmd@),
            None => matched(*m).is_none(),
        },
{
    match m {
        None => Ok(None),
        Some(sub) => {
            let name = sub.name.as_str();
            let card: &str = match &sub.card {
                Some(text) => text.as_str(),
                None => "",
            };
            proof {
                reveal_strlit("");
                assert(""@ =~= Seq::<char>::empty());
            }
            if str_eq(name, "create") {
                Ok(Some(Cmd::Create(card)))
            } else if str_eq(name, "read") {
                match &sub.id {
                    Some(id) => Ok(Some(Cmd::Read(id.as_str()))),
                    None => Ok(None),
                }
            } else if str_eq(name, "update") {
                match &sub.id {
                    Some(id) => Ok(Some(Cmd::Update(id.as_str(), card))),
                    None => Ok(None),
                }
            } else if str_eq(name, "delete") {
                match &sub.id {
                    Some(id) => Ok(Some(Cmd::Delete(id.as_str()))),
                    None => Ok(None),
                }
            } else {
                Ok(None)
            }
        },
    }
}

} // verus!
