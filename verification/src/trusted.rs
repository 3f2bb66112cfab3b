//! What the library takes on trust from the template engine (`tera`) and
//! the web framework (`axum`).
//!
//! Nothing in this module is proved. Each item tells Verus what to assume of
//! code that lives in another crate, and says in its comment which code that
//! is, so that what the proofs rest on can be held against that crate.
//!
//! The engine's `render` is not among them. It unwraps where it looks up a
//! parent or a macro file and where it adds floats, and it runs the filters
//! and functions that a registry holds, so there are registries on which it
//! panics, and none of them can be told apart without rendering. The call
//! is left to the handler that may fail; the library says what is handed to
//! it and what is made of its text.

use vstd::prelude::*;

verus! {

/// `tera::Context`, the variables that a template is rendered with.
#[verifier::external_type_specification]
#[verifier::external_body]
pub struct ExContext(tera::Context);

/// `axum::response::Html`, a body that the framework sends as `text/html`.
/// The struct is its one public field, and Verus reads it as declared there.
#[verifier::external_type_specification]
pub struct ExHtml<T>(axum::response::Html<T>);

/// What a context binds: each of its keys, with the text bound to the key
/// where the value is a text, and `None` where it is of another kind.
pub type Variables = Map<Seq<char>, Option<Seq<char>>>;

/// The variables of a context.
pub uninterp spec fn context_variables(context: tera::Context) -> Variables;

/// `tera::Context::new` returns a context that binds nothing.
pub assume_specification[ tera::Context::new ]() -> (context: tera::Context)
    ensures
        context_variables(context) == Variables::empty(),
;

/// `tera::Context::insert`, called with a string slice as the value. The
/// engine makes a text value of the slice, which cannot fail, and binds it
/// to `key`, in place of whatever the key was bound to.
#[verifier::external_body]
pub(crate) fn insert_text(context: &mut tera::Context, key: &str, value: &str)
    ensures
        context_variables(*final(context)) == context_variables(*old(context)).insert(
            key@,
            Some(value@),
        ),
{
    context.insert(key, value);
}

} // verus!
