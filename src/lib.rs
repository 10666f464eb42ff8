//! Entity repository and session authentication over a graph store.
pub mod value;
pub mod entity;
pub mod credential;
pub mod session;
pub mod client;
pub mod memory;
pub mod repository;
pub mod logic;
