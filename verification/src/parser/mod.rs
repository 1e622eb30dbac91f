pub mod language_pack_ts_js;
pub mod line_index;
pub mod parse_cache;
pub mod parse_core;
pub mod parse_manager;
pub mod snapshot_catalog;

use vstd::prelude::*;

verus! {

/// Why a parse could not be carried out.
#[derive(Debug)]
pub enum ParserError {
    Message(String),
}

impl ParserError {
    /// The message the error carries.
    pub fn message(&self) -> (r: String)
        ensures
            match self {
                ParserError::Message(m) => r@ == m@,
            },
    {
        match self {
            ParserError::Message(m) => m.clone(),
        }
    }
}

} // verus!
