//! Verified core of a scanned-document pipeline: page keys, the extraction
//! retry protocol, the document cache decisions, the document record with its
//! rename history, and the final assembly stage.

pub mod assembly;
pub mod cache;
pub mod error;
pub mod extraction;
pub mod page_key;
pub mod prompts;
pub mod record;
pub mod run;
pub mod text;
pub mod xml_format;
