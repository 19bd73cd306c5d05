//! The backend adapters: the capability contract every search engine
//! adapter implements, its error taxonomy, and the DuckDuckGo adapter.

pub mod duckduckgo;
pub mod engine_models;
