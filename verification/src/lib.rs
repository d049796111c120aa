//! Verified core of an image bulletin board: the configuration, the image
//! kinds it accepts, the validation of a post form, the names under which
//! uploaded images are stored, and the reading of the page query.

pub mod text;
pub mod image_ext;
pub mod config;
pub mod error;
pub mod sniff;
pub mod form;
pub mod storage;
pub mod query;
pub mod laws;
pub mod database;
