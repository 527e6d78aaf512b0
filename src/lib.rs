//! Reading and rewriting of the `<!--DASC` save-game container: its header,
//! the tagged metadata record of block one, and the character appearance
//! sub-record of block two, which can be transplanted between saves.

pub mod error;
pub mod text;
pub mod enums;
pub mod varsize;
pub mod client_data;
pub mod writer;
pub mod metadata;
pub mod trusted;
pub mod container;

pub use client_data::BWSaveGameClientDataReader;
pub use container::{BWSaveGameReader, Header};
pub use error::SaveError;
pub use metadata::{BWSaveGameMetadata, BWSaveGameMetadataReader};
pub use writer::BWSaveGameWriter;
