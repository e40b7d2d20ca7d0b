//! A list of projects that is searched by text, grows and shrinks at the
//! user's request, and hands out one of its visible projects at random.

pub mod controller;
pub mod decimal;
pub mod demo;
pub mod laws;
pub mod project;
pub mod search;
pub mod sequences;
pub mod state;
pub mod store;
pub mod text;
pub mod words;
