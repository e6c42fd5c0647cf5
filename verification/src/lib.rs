//! An editable store for natural-language-understanding training data:
//! intent examples, regex features and entity synonyms, held in three
//! ordered collections whose records are addressed by position.

pub mod collection;
pub mod error;
pub mod rasa;
pub mod store;
