//! The template engine, as far as the library relies on it. Nothing in this
//! file is proved: it states what the engine is taken to do.

use vstd::prelude::*;

verus! {

/// `tera::Context`, the values that a template is filled with, each under
/// its key.
#[verifier::external_type_specification]
#[verifier::external_body]
pub struct ExContext(tera::Context);

/// The texts that a context holds, each under its key.
pub uninterp spec fn context_values(context: tera::Context) -> Map<Seq<char>, Seq<char>>;

/// `tera::Context::new` makes a context that holds nothing.
pub assume_specification[ tera::Context::new ]() -> (context: tera::Context)
    ensures
        context_values(context) == (Map::<Seq<char>, Seq<char>>::empty()),
;

/// `tera::Context::insert`, for a text: afterwards the context holds `value`
/// under `key`, in place of what it held there, and everything else as
/// before.
#[verifier::external_body]
pub(crate) fn insert_text(context: &mut tera::Context, key: &str, value: &str)
    ensures
        context_values(*final(context)) == context_values(*old(context)).insert(key@, value@),
{
    context.insert(key, value);
}

} // verus!
