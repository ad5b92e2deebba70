//! Lumina's browsing surface manager, and the rules of the browser around it.
//!
//! A host window shows one primary control surface and any number of tab
//! surfaces. The heart of this crate keeps them consistent: where each
//! surface lies ([`layout`]), which surfaces exist ([`registry`]), which tab
//! is in front ([`tabs`], with what holds over whole histories in [`laws`]),
//! how addresses are put in canonical form and routed ([`navigation`]) and
//! what happens when a destination cannot be reached ([`reachability`]).
//!
//! The crate never touches a window, a file or the network. Its operations
//! hand back [`host::HostCommand`]s, which the host layer carries out, and
//! take in what the host layer found.
//!
//! Around the heart stand the smaller rules of the browser: the
//! application's own pages ([`internal`], [`pages`]), the scripts put into
//! pages ([`scripts`], [`commands`]), the rules around the filter engine
//! ([`filter`]), the user's data ([`data`], [`history_manager`],
//! [`downloads`], [`store`], [`search`]), standalone windows ([`windows`],
//! [`manifest`]), the helper programs ([`sidekick`]) and the command language
//! Kip ([`kip`]). [`text`] holds the operations on text that all of them are
//! written with; [`codec`] and [`clock`] hold the calls into other crates.

pub mod clock;
pub mod codec;
pub mod commands;
pub mod data;
pub mod downloads;
pub mod filter;
pub mod history_manager;
pub mod host;
pub mod internal;
pub mod kip;
pub mod laws;
pub mod layout;
pub mod manifest;
pub mod navigation;
pub mod pages;
pub mod reachability;
pub mod registry;
pub mod scripts;
pub mod search;
pub mod sidekick;
pub mod store;
pub mod tabs;
pub mod text;
pub mod windows;
