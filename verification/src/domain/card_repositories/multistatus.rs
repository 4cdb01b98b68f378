//! The shapes of the multistatus documents that a WebDAV server answers
//! with, one property set for each question that the library asks.

use crate::date::Timestamp;
use vstd::prelude::*;

verus! {

/// A multistatus document: one response for each resource, in the order of
/// the document.
#[derive(Debug, Clone, PartialEq, Eq)]
pub struct Multistatus<T> {
    pub responses: Vec<Response<T>>,
}

/// What the server says of one resource.
#[derive(Debug, Clone, PartialEq, Eq)]
pub struct Response<T> {
    pub href: Href,
    pub propstat: Propstat<T>,
}

/// The properties of a resource, and the status line that goes with them.
#[derive(Debug, Clone, PartialEq, Eq)]
pub struct Propstat<T> {
    pub prop: T,
    pub status: Option<Status>,
}

/// A path or an address.
#[derive(Debug, Clone, PartialEq, Eq)]
pub struct Href {
    pub value: String,
}

/// A status line, such as `HTTP/1.1 200 OK`.
#[derive(Debug, Clone, PartialEq, Eq)]
pub struct Status {
    pub value: String,
}

/// The version token of a collection.
#[derive(Debug, Clone, PartialEq, Eq)]
pub struct GetCtag {
    pub value: String,
}

/// The version token of a resource.
#[derive(Debug, Clone, PartialEq, Eq)]
pub struct GetEtag {
    pub value: String,
}

/// The instant of the last change of a resource.
#[derive(Debug, Clone, PartialEq, Eq)]
pub struct GetLastModified {
    pub value: Timestamp,
}

/// The answer to the question for the principal of the current user. The
/// property is `None` where the server left it out.
#[derive(Debug, Clone, PartialEq, Eq)]
pub struct CurrentUserPrincipalProp {
    pub current_user_principal: Option<CurrentUserPrincipal>,
}

/// The principal of the current user.
#[derive(Debug, Clone, PartialEq, Eq)]
pub struct CurrentUserPrincipal {
    pub href: Href,
}

/// The answer to the question for the home of the addressbooks. The
/// property is `None` where the server left it out.
#[derive(Debug, Clone, PartialEq, Eq)]
pub struct AddressbookHomeSetProp {
    pub addressbook_home_set: Option<AddressbookHomeSet>,
}

/// The home of the addressbooks of a principal.
#[derive(Debug, Clone, PartialEq, Eq)]
pub struct AddressbookHomeSet {
    pub href: Href,
}

/// The answer to the question for the type of a resource. The property is
/// `None` where the server left it out.
#[derive(Debug, Clone, PartialEq, Eq)]
pub struct AddressbookProp {
    pub resourcetype: Option<AddressbookResourceType>,
}

/// The type of a resource: an addressbook where the marker is there.
#[derive(Debug, Clone, PartialEq, Eq)]
pub struct AddressbookResourceType {
    pub addressbook: Option<Addressbook>,
}

/// The marker of an addressbook collection.
#[derive(Debug, Clone, PartialEq, Eq)]
pub struct Addressbook {}

/// The properties of one card in a listing.
#[derive(Debug, Clone, PartialEq, Eq)]
pub struct AddressDataProp {
    pub address_data: AddressData,
    pub getetag: GetEtag,
    pub getlastmodified: GetLastModified,
}

/// The vCard of a card in a listing.
#[derive(Debug, Clone, PartialEq, Eq)]
pub struct AddressData {
    pub value: String,
}

/// The answer to the question for the version token of a collection.
#[derive(Debug, Clone, PartialEq, Eq)]
pub struct CtagProp {
    pub getctag: GetCtag,
}

} // verus!
