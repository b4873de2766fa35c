use vstd::prelude::*;

pub mod ai;
pub mod beyond_identity;
pub mod common;
pub mod copies;
pub mod text;
pub mod weburl;

verus! {

} // verus!
