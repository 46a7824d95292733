//! What can go wrong between an image identifier and its build recipe.

use vstd::prelude::*;
use vstd::std_specs::convert::FromSpecImpl;

verus! {

/// A distribution name that no supported distribution answers to. It holds
/// the name as it was given.
#[derive(Debug)]
pub struct DecodingError(pub String);

/// What is wrong with the recipe template.
#[derive(Debug)]
pub enum TemplateFault {
    /// The template collection could not be loaded. With it comes what the
    /// template engine said, its own account first and each cause after.
    NotLoaded(Vec<String>),
    /// The template collection holds no recipe template. With it comes what
    /// the template engine said, its own account first and each cause after.
    NotFound(Vec<String>),
    /// The template asks for a value that it is not given. With it comes
    /// what the template engine said.
    UnknownValue(Vec<String>),
    /// The template has no target for `name`, the distribution's name.
    LacksName,
    /// The template has no target for `version`, the image's tag.
    LacksVersion,
    /// The template has no target for `run_layer`, the bring-up command line.
    LacksRunLayer,
}

/// Why no recipe could be produced.
#[derive(Debug)]
pub enum Error {
    /// The identifier does not begin with a name.
    Malformed,
    /// The identifier names a distribution that is not supported.
    UnsupportedDistribution(DecodingError),
    /// The recipe template could not be loaded or is not there, or it lacks
    /// a target, or it asks for a value that it is not given.
    Template(TemplateFault),
    /// The template engine could not make sense of a template's source, or
    /// failed while it rendered the recipe template. With it comes what the
    /// engine said, its own account first and each cause after.
    Render(Vec<String>),
}

impl From<DecodingError> for Error {
    fn from(err: DecodingError) -> (error: Self) {
        Error::UnsupportedDistribution(err)
    }
}

impl FromSpecImpl<DecodingError> for Error {
    open spec fn obeys_from_spec() -> bool {
        true
    }

    open spec fn from_spec(err: DecodingError) -> Self {
        Error::UnsupportedDistribution(err)
    }
}

} // verus!
