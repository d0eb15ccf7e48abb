//! Expands shortened URLs: recognises the shortening service, picks the
//! mechanism that the service redirects by, and computes the destination
//! from what the network answers. The network itself is the caller's: the
//! engine names each request to make and takes back what it gave.
pub mod address;
pub mod cipher;
pub mod engine;
pub mod error;
pub mod pages;
pub mod pattern;
pub mod replies;
pub mod resolvers;
pub mod services;
pub mod text;
pub mod transport;

pub use address::validate;
pub use engine::{begin, resume, start, Action, Event, Kind, Session, Shape, Stage, Step};
pub use error::Error;
pub use services::{is_shortened, which_service, Strategy};
