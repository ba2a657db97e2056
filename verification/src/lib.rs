//! A data-driven CRUD core: a tagged `Value` model for entity fields,
//! field accessors that read and write those fields generically, an
//! edit/save state machine with dirty tracking and leave confirmation,
//! and a change-detecting persisted store for per-instance state.

pub mod backend;
pub mod condition;
pub mod data;
pub mod datetime;
pub mod edit;
pub mod ids;
pub mod json;
pub mod layout;
pub mod read;
pub mod record;
pub mod selectable;
pub mod stores;
pub mod text;
pub mod value;
pub mod views;
