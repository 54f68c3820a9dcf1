use vstd::prelude::*;

pub mod health;
pub mod parse;
pub mod process;
pub mod spawn;
pub mod state;
pub mod text;
pub mod wait;

verus! {

/// The fixed local port the backend listens on.
pub const BACKEND_PORT: u16 = 40000;

} // verus!
