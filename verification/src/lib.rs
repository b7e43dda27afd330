//! A token presale engine, verified.
//!
//! A [`Factory`] creates presales and stamps each with a platform fee. A
//! [`Presale`] is one campaign: it takes contributions within its window, up
//! to its hard cap, from anyone or from its whitelist, and records who paid
//! what. The engine decides and keeps the books; it moves no funds itself.
//! Each operation hands back the transfers that the caller must carry out.

pub mod create;
pub mod error;
pub mod factory;
pub mod identity;
pub mod laws;
pub mod ledger;
pub mod presale;
pub mod purchase;

pub use crate::create::{create_presale, CreatePresale};
pub use crate::error::ErrorCode;
pub use crate::factory::{initialize_factory, Factory, InitializeFactory};
pub use crate::ledger::Buyer;
pub use crate::presale::Presale;
pub use crate::purchase::{buy_tokens, BuyTokens};
