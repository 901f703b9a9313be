//! The organism that keeps a finite stock of the food it produces, counts
//! the food it eats, and reports what it hands out to an observer.

pub mod ecosystem;
pub mod service;
pub mod state;
