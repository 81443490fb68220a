//! Corpus storage and selection for a small text-generation service.
//!
//! The core of the crate is a pair of storage capabilities, [`FileStorage`]
//! and [`Database`], the backend adapters behind them, a facade derived
//! from the pair, and the protocol that switches the active corpus while
//! keeping the persisted settings and the in-memory generation model
//! consistent.

pub mod backend;
pub mod chain;
pub mod codec;
pub mod config;
pub mod ephemeral;
pub mod lines;
pub mod local;
pub mod protocol;
pub mod remote;
pub mod selector;
pub mod textops;

pub use backend::Backend;
pub use backend::Database;
pub use backend::FileStorage;
pub use backend::StoreError;
pub use backend::StoreModel;
pub use selector::CorpusType;
pub use selector::Settings;
