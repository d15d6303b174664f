//! Core of an auction platform: the data that its commands carry, the
//! events they emit, and the commands that turn requests into events and
//! events back into results.

pub mod ids;
pub mod data;
pub mod event;
pub mod graphql;
pub mod commands;
pub mod entities;
