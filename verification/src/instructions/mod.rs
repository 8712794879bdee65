//! The four requests, each with its accounts, its steps and its handler.

pub mod lock_corenft;
pub mod lock_pnft;
pub mod unlock_corenft;
pub mod unlock_pnft;
