//! Page resolvers of single services: what each one reads from a service's
//! landing page.
pub mod meta_refresh;
pub mod nowlinks;
pub mod rlu;
pub mod tinyurl;
pub mod twitter;
pub mod window;
