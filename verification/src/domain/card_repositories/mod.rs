//! The two kinds of repository.

pub mod discovery;
pub mod local_card_repository;
pub mod multistatus;
pub mod remote_card_repository;

pub use discovery::{
    addressbook_path, AddressbookStep, HomeSetStep, PrincipalStep, PropfindReply,
};
pub use local_card_repository::LocalCardRepository;
pub use multistatus::{
    AddressData, AddressDataProp, Addressbook, AddressbookHomeSet, AddressbookHomeSetProp,
    AddressbookProp, AddressbookResourceType, CtagProp, CurrentUserPrincipal,
    CurrentUserPrincipalProp, GetCtag, GetEtag, GetLastModified, Href, Multistatus, Propstat,
    Response, Status,
};
pub use remote_card_repository::{RemoteCardRepository, Reply};
