//! Classic object-oriented design patterns, each with its own small domain,
//! written as verified state machines and value types.

pub mod abstract_factory;
pub mod builder;
pub mod command;
pub mod facade;
pub mod factory;
pub mod iterator;
pub mod memento;
pub mod mvc;
pub mod null_object;
pub mod prototype;
pub mod state;
pub mod util;
