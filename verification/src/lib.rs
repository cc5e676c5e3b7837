use vstd::prelude::*;

pub mod text;
pub mod client;
pub mod bridge;
pub mod process;
pub mod icon;
pub mod recovery;

verus! {

} // verus!
