//! A contact manager's core: discovery of a CardDAV addressbook and the
//! requests and answers of create, read, update and delete, as values.

pub mod config;
pub mod date;
pub mod domain;
pub mod error;
pub mod http;
pub mod text;
