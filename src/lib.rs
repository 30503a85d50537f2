//! Client-side interface to the instructions of the Marinade liquid-staking
//! program: the byte layout of each instruction's data, the ordered account
//! roles it expects, builders that assemble an instruction from addresses and
//! arguments, and checks of the accounts handed over at call time.

pub mod accounts;
pub mod codec;
pub mod instructions;
pub mod program;
pub mod typedefs;
