use vstd::prelude::*;

pub mod agent;
pub mod audit;
pub mod balances;
pub mod dex;
pub mod flow;
pub mod kong_types;
pub mod natural;
pub mod principal;
pub mod requests;
pub mod state;
pub mod symbol;
pub mod text;
pub mod types;
pub mod validation;

verus! {
} // verus!
