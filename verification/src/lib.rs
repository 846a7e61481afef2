use vstd::prelude::*;

pub mod app;
pub mod control;
pub mod error;
pub mod event;
pub mod layout;
pub mod laws;
pub mod reader;
pub mod table;
pub mod text;
pub mod writer;

verus! {
}
