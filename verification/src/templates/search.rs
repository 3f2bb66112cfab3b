//! The search page: what its handler hands to the template engine, and what
//! it makes of the text that the engine renders.
//!
//! A handler renders the template `TEMPLATE_PATH` with the context of
//! `SearchTemplate::new` and answers with `get_search` of the text. When
//! the engine renders nothing, there is no page, and the request fails in
//! the handler: nothing here stands for a failed request.

use vstd::prelude::*;
use axum::response::Html;
use tera::Context;
use crate::trusted::{context_variables, insert_text, Variables};

verus! {

/// The name under which the registry holds the template of the search page.
pub const TEMPLATE_PATH: &'static str = "searchPage.html";

/// The variable under which the template finds the page identifier.
pub const PAGE_KEY: &'static str = "current_page";

/// The page identifier of every search page.
pub const PAGE_PLACEHOLDER: &'static str = "String";

/// The variables that every search page is rendered with: the placeholder
/// under the page key, and nothing else.
pub open spec fn search_variables() -> Variables {
    map![PAGE_KEY@ => Some(PAGE_PLACEHOLDER@)]
}

/// The page that answers a request for which the engine rendered
/// `rendered`: that text, unchanged, in an `Html`.
pub open spec fn search_page(rendered: String) -> Html<String> {
    Html(rendered)
}

/// The rendering context of the search page.
pub struct SearchTemplate {
    current_page: String,
}

impl View for SearchTemplate {
    type V = Seq<char>;

    /// A search template is its page identifier.
    closed spec fn view(&self) -> Seq<char> {
        self.current_page@
    }
}

impl SearchTemplate {
    /// Every search template holds the placeholder as its page identifier.
    #[verifier::type_invariant]
    spec fn holds_placeholder(self) -> bool {
        self.current_page@ == PAGE_PLACEHOLDER@
    }

    /// The context of a request. No request has a say in it.
    pub fn new() -> (template: SearchTemplate)
        ensures
            template@ == PAGE_PLACEHOLDER@,
    {
        SearchTemplate { current_page: PAGE_PLACEHOLDER.to_string() }
    }

    /// The page identifier, which is the placeholder in every template.
    pub fn current_page(&self) -> (id: &str)
        ensures
            id@ == self@,
            id@ == PAGE_PLACEHOLDER@,
    {
        proof {
            use_type_invariant(self);
        }
        self.current_page.as_str()
    }

    /// The variables that the engine is handed.
    pub fn context(&self) -> (context: Context)
        ensures
            context_variables(context) == search_variables(),
    {
        proof {
            use_type_invariant(self);
        }
        let mut context = Context::new();
        insert_text(&mut context, PAGE_KEY, self.current_page.as_str());
        context
    }
}

/// Answers a request for the search page with the text that the engine
/// rendered for it. The framework sends an `Html` as `text/html`.
pub fn get_search(rendered: String) -> (page: Html<String>)
    ensures
        page == search_page(rendered),
{
    Html(rendered)
}

/// Two requests for which the engine renders the same text are answered
/// with the same body: the text is all that enters a page, and the
/// variables that the engine is handed are the same on every request.
pub proof fn same_text_same_page(first: String, second: String)
    requires
        first@ == second@,
    ensures
        search_page(first).0@ == search_page(second).0@,
{
}

} // verus!
