//! The search page of a site whose pages are rendered from a registry of
//! parsed templates.
//!
//! `templates::search` holds the page's rendering context and what its
//! handler makes of the rendered text. `trusted` holds what is assumed of
//! the template engine and of the web framework.

pub mod templates;
pub mod trusted;
