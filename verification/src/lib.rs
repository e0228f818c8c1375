//! The core of a small budget service, kept free of input and output.
//!
//! The service stores budget lines and their categories in a relational
//! store and answers HTTP requests about them. This crate holds everything
//! the service decides: which statement goes to the store for each
//! operation, how the store's answer is read, and which status code and
//! JSON envelope the caller gets back. Sending a statement, waiting for the
//! store and writing the response are left to the program around it.

pub mod amount;
pub mod db;
pub mod handler;
pub mod model;
pub mod response;
pub mod startup;
pub mod text;
