use vstd::prelude::*;

pub mod board;
pub mod character;
pub mod command;
pub mod coordinates;
pub mod error;
pub mod render;
pub mod session;
pub mod text;

verus! {

} // verus!
