//! Synthetic keyboard and mouse input of the `Input` domain.
pub mod methods;
