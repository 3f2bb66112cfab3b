//! The pages of the site, one module each.

pub mod search;
