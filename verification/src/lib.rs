//! A layered, thread-scope-aware binding core for a native plugin host API.
//!
//! The host (a digital audio workstation) exposes its API as a large table of
//! named function pointers that a plugin resolves at load time. This crate
//! contains the verified core of such a binding: a declaration extractor, a
//! binding generator, the function pointer table with its loader, the
//! thread-scope capability markers, and the typed dispatch layer.
//!
//! Native function addresses are carried as plain integers; the one unsafe
//! operation of a real binding, casting an address to a function pointer and
//! calling it, is out of scope here and is injected by the embedding code as a
//! closure wherever a dispatch method needs to perform the native call.

pub mod sig;

pub mod decl;

pub mod gen;

pub mod table;

pub mod scope;

pub mod handles;

pub mod convert;

pub mod low;

pub mod reaper;

pub mod midi_device;
