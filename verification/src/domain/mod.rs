//! Cards and the repositories that hold them.

pub mod card_arg;
pub mod card_entity;
pub mod card_handler;
pub mod card_repositories;
pub mod card_repository;

pub use card_entity::{Card, CardView, Etag};
pub use card_repository::CardRepository;
