//! The build recipe of an image: what the recipe template is filled with,
//! and the rendered text together with the identifier it was made for.

use crate::distro::Distro;
use crate::error::{Error, TemplateFault};
use crate::image_name::{is_word_char, lemma_word_len, Identifier, ImageName};
use crate::template::{context_values, insert_text};
use crate::targets::{has_target, template_has_target};
use crate::text::{begins_with, contains, occurs_in, starts_with, texts};
use tera::Context;
use vstd::prelude::*;
use vstd::string::*;

verus! {

/// The name of the recipe template, and of the recipe file.
pub const DOCKERFILE: &'static str = "Dockerfile";

/// What the recipe template for `image` on `distro` is filled with: the
/// distribution's canonical name as `name`, the image's tag as `version`, and
/// the bring-up command line as `run_layer`.
pub open spec fn recipe_values(distro: Distro, image: Identifier) -> Map<Seq<char>, Seq<char>> {
    Map::<Seq<char>, Seq<char>>::empty().insert("name"@, distro.canonical_name()).insert(
        "version"@,
        image.tag,
    ).insert("run_layer"@, distro.bring_up())
}

/// The context that the recipe template for `image` on `distro` is rendered
/// with.
pub fn recipe_context(distro: Distro, image: &ImageName<'_>) -> (context: Context)
    ensures
        context_values(context) == recipe_values(distro, image@),
{
    let mut context = Context::new();
    insert_text(&mut context, "name", distro.name());
    insert_text(&mut context, "version", image.tag());
    insert_text(&mut context, "run_layer", distro.run_layer().as_str());
    context
}

/// The template finds each of the three values under its own key: none of
/// them hides another.
pub proof fn lemma_recipe_values(distro: Distro, image: Identifier)
    ensures
        recipe_values(distro, image).dom() == set!["name"@, "version"@, "run_layer"@],
        recipe_values(distro, image)["name"@] == distro.canonical_name(),
        recipe_values(distro, image)["version"@] == image.tag,
        recipe_values(distro, image)["run_layer"@] == distro.bring_up(),
{
    reveal_strlit("name");
    reveal_strlit("version");
    reveal_strlit("run_layer");
    assert("name"@.len() != "version"@.len());
    assert("name"@.len() != "run_layer"@.len());
    assert("version"@.len() != "run_layer"@.len());
    assert(recipe_values(distro, image).dom() =~= set!["name"@, "version"@, "run_layer"@]);
}

/// What a template is filled with depends on the distribution and on the tag
/// of the image, and on nothing else: two identifiers with one tag give the
/// same values on one distribution.
pub proof fn lemma_recipe_values_by_tag(distro: Distro, a: Identifier, b: Identifier)
    requires
        a.tag == b.tag,
    ensures
        recipe_values(distro, a) == recipe_values(distro, b),
{
}

/// The directory that the recipe of `image` is kept in: `images/<name>/<tag>`.
pub open spec fn recipe_dir(image: Identifier) -> Seq<char> {
    "images/"@ + image.name + "/"@ + image.tag
}

/// The file that the recipe of `image` is kept in: `Dockerfile` in its
/// directory.
pub open spec fn recipe_file(image: Identifier) -> Seq<char> {
    recipe_dir(image) + "/"@ + DOCKERFILE@
}

/// Each image has a directory of its own: two valid identifiers with one
/// directory are one identifier.
pub proof fn lemma_recipe_dir_injective(a: Identifier, b: Identifier)
    requires
        a.valid(),
        b.valid(),
        recipe_dir(a) == recipe_dir(b),
    ensures
        a == b,
{
    reveal_strlit("images/");
    reveal_strlit("/");
    let root = "images/"@;
    let below_a = a.name + "/"@ + a.tag;
    let below_b = b.name + "/"@ + b.tag;
    assert(recipe_dir(a).skip(root.len() as int) =~= below_a);
    assert(recipe_dir(b).skip(root.len() as int) =~= below_b);
    assert(!is_word_char('/'));
    assert(below_a[a.name.len() as int] == '/');
    assert(below_b[b.name.len() as int] == '/');
    assert forall|i: int| 0 <= i < a.name.len() implies is_word_char(#[trigger] below_a[i]) by {
        assert(below_a[i] == a.name[i]);
    }
    assert forall|i: int| 0 <= i < b.name.len() implies is_word_char(#[trigger] below_b[i]) by {
        assert(below_b[i] == b.name[i]);
    }
    lemma_word_len(below_a, a.name.len() as int);
    lemma_word_len(below_b, b.name.len() as int);
    assert(a.name =~= below_a.take(a.name.len() as int));
    assert(b.name =~= below_b.take(b.name.len() as int));
    assert(a.tag =~= below_a.skip(a.name.len() as int + 1));
    assert(b.tag =~= below_b.skip(b.name.len() as int + 1));
}

/// The recipe template as it was found, and what the template engine made of
/// it.
#[derive(Debug)]
pub enum Rendering {
    /// The engine could not load the templates. With it comes what the
    /// engine said, its own account first and each cause after.
    NotLoaded(Vec<String>),
    /// The engine holds no template of the name asked for. With it comes
    /// what the engine said.
    NotFound(Vec<String>),
    /// The engine failed to render the template. With it come the source of
    /// the template and what the engine said.
    Failed { template: String, said: Vec<String> },
    /// The engine rendered the template. With it come the source of the
    /// template and the text that it was rendered to.
    Rendered { template: String, text: String },
}

/// Whether `message` is the engine's way of saying that it could not make
/// sense of a template's source: it holds the words `Failed to parse `.
pub open spec fn tells_bad_syntax(message: Seq<char>) -> bool {
    occurs_in("Failed to parse "@, message)
}

/// Whether `message` is the engine's way of saying that a template asks for a
/// value that it is not given: it begins with `Variable ` and goes on with
/// `` ` not found in context``.
pub open spec fn tells_unknown_value(message: Seq<char>) -> bool {
    begins_with(message, "Variable "@) && occurs_in("` not found in context"@, message)
}

/// Whether one of `messages` tells of bad syntax.
pub open spec fn some_tells_bad_syntax(messages: Seq<Seq<char>>) -> bool {
    exists|i: int| 0 <= i < messages.len() && tells_bad_syntax(#[trigger] messages[i])
}

/// Whether one of `messages` tells of an unknown value.
pub open spec fn some_tells_unknown_value(messages: Seq<Seq<char>>) -> bool {
    exists|i: int| 0 <= i < messages.len() && tells_unknown_value(#[trigger] messages[i])
}

/// The value that the template `source` has no target for, as the fault it
/// is: the first of `name`, `version` and `run_layer` that is missing, and
/// nothing if none is.
pub open spec fn missing_target(source: Seq<char>) -> Option<TemplateFault> {
    if !has_target(source, "name"@) {
        Some(TemplateFault::LacksName)
    } else if !has_target(source, "version"@) {
        Some(TemplateFault::LacksVersion)
    } else if !has_target(source, "run_layer"@) {
        Some(TemplateFault::LacksRunLayer)
    } else {
        None
    }
}

/// What stands in the way of a recipe, given the template and what the
/// engine made of it; nothing, if the engine rendered a template that has its
/// three targets.
///
/// Templates that could not be loaded are at fault, unless the engine
/// complains of their syntax, which is a failure to render. A template that
/// is not there is at fault, and so is one that lacks a target, whatever the
/// engine made of it, or that asks for a value it is not given. Any other
/// failure of the engine is a failure to render.
pub open spec fn fault(rendering: Rendering) -> Option<Error> {
    match rendering {
        Rendering::NotLoaded(said) => if some_tells_bad_syntax(texts(said@)) {
            Some(Error::Render(said))
        } else {
            Some(Error::Template(TemplateFault::NotLoaded(said)))
        },
        Rendering::NotFound(said) => Some(Error::Template(TemplateFault::NotFound(said))),
        Rendering::Failed { template, said } => if let Some(missing) = missing_target(template@) {
            Some(Error::Template(missing))
        } else if some_tells_unknown_value(texts(said@)) {
            Some(Error::Template(TemplateFault::UnknownValue(said)))
        } else {
            Some(Error::Render(said))
        },
        Rendering::Rendered { template, text } => if let Some(missing) = missing_target(
            template@,
        ) {
            Some(Error::Template(missing))
        } else {
            None
        },
    }
}

/// Whether one of `messages` tells of bad syntax.
pub fn any_tells_bad_syntax(messages: &Vec<String>) -> (found: bool)
    ensures
        found == some_tells_bad_syntax(texts(messages@)),
{
    let mut i: usize = 0;
    while i < messages.len()
        invariant
            i <= messages.len(),
            forall|k: int| 0 <= k < i ==> !tells_bad_syntax(#[trigger] texts(messages@)[k]),
        decreases messages.len() - i,
    {
        let message = messages[i].as_str();
        assert(message@ == texts(messages@)[i as int]);
        if contains(message, "Failed to parse ") {
            return true;
        }
        i += 1;
    }
    false
}

/// Whether one of `messages` tells of an unknown value.
pub fn any_tells_unknown_value(messages: &Vec<String>) -> (found: bool)
    ensures
        found == some_tells_unknown_value(texts(messages@)),
{
    let mut i: usize = 0;
    while i < messages.len()
        invariant
            i <= messages.len(),
            forall|k: int| 0 <= k < i ==> !tells_unknown_value(#[trigger] texts(messages@)[k]),
        decreases messages.len() - i,
    {
        let message = messages[i].as_str();
        assert(message@ == texts(messages@)[i as int]);
        if starts_with(message, "Variable ") && contains(message, "` not found in context") {
            return true;
        }
        i += 1;
    }
    false
}

/// The value that the template `source` has no target for, if there is one.
pub fn find_missing_target(source: &str) -> (missing: Option<TemplateFault>)
    ensures
        missing == missing_target(source@),
{
    if !template_has_target(source, "name") {
        Some(TemplateFault::LacksName)
    } else if !template_has_target(source, "version") {
        Some(TemplateFault::LacksVersion)
    } else if !template_has_target(source, "run_layer") {
        Some(TemplateFault::LacksRunLayer)
    } else {
        None
    }
}

/// A rendered build recipe and the identifier of the image it builds.
#[derive(Debug)]
pub struct ImageMetadata<'a> {
    image: &'a ImageName<'a>,
    dockerfile: String,
}

impl<'a> ImageMetadata<'a> {
    /// The identifier of the image.
    pub closed spec fn image_name(&self) -> &'a ImageName<'a> {
        self.image
    }

    /// The text of the recipe.
    pub closed spec fn text(&self) -> Seq<char> {
        self.dockerfile@
    }

    /// The recipe `dockerfile` for `image`.
    pub fn new(image: &'a ImageName<'a>, dockerfile: String) -> (recipe: Self)
        ensures
            recipe.image_name() == image,
            recipe.text() == dockerfile@,
    {
        ImageMetadata { image, dockerfile }
    }

    /// The recipe of `image`, made of what the engine rendered from the
    /// recipe template filled with `recipe_context`. A name that no supported
    /// distribution answers to is refused whatever the engine did; for any
    /// other name the outcome is that of `synthesize`.
    pub fn try_new(image: &'a ImageName<'a>, rendering: Rendering) -> (recipe: Result<Self, Error>)
        ensures
            match Distro::resolve(image@.name) {
                Some(_) => made_of(recipe, image, rendering),
                None => recipe matches Err(Error::UnsupportedDistribution(unknown)) && unknown.0@
                    == image@.name,
            },
    {
        match Distro::from_str(image.name()) {
            Ok(_) => Self::synthesize(image, rendering),
            Err(unknown) => Err(Error::from(unknown)),
        }
    }

    /// The recipe of `image`, made of what the engine rendered from the
    /// recipe template filled with `recipe_context`: the rendered text as it
    /// is, if nothing is at fault, and the fault if something is.
    pub fn synthesize(image: &'a ImageName<'a>, rendering: Rendering) -> (recipe: Result<
        Self,
        Error,
    >)
        ensures
            made_of(recipe, image, rendering),
    {
        match rendering {
            Rendering::NotLoaded(said) => {
                if any_tells_bad_syntax(&said) {
                    Err(Error::Render(said))
                } else {
                    Err(Error::Template(TemplateFault::NotLoaded(said)))
                }
            },
            Rendering::NotFound(said) => Err(Error::Template(TemplateFault::NotFound(said))),
            Rendering::Failed { template, said } => {
                match find_missing_target(template.as_str()) {
                    Some(missing) => Err(Error::Template(missing)),
                    None => {
                        if any_tells_unknown_value(&said) {
                            Err(Error::Template(TemplateFault::UnknownValue(said)))
                        } else {
                            Err(Error::Render(said))
                        }
                    },
                }
            },
            Rendering::Rendered { template, text } => {
                match find_missing_target(template.as_str()) {
                    Some(missing) => Err(Error::Template(missing)),
                    None => Ok(Self::new(image, text)),
                }
            },
        }
    }

    /// The identifier of the image.
    pub fn image(&self) -> (image: &'a ImageName<'a>)
        ensures
            image == self.image_name(),
    {
        self.image
    }

    /// The text of the recipe.
    pub fn dockerfile(&self) -> (text: &str)
        ensures
            text@ == self.text(),
    {
        self.dockerfile.as_str()
    }

    /// The directory of the recipe: `images/<name>/<tag>`.
    pub fn dir(&self) -> (path: String)
        ensures
            path@ == recipe_dir(self.image_name()@),
    {
        let mut path = "images/".to_owned();
        path.append(self.image.name());
        path.append("/");
        path.append(self.image.tag());
        path
    }

    /// The file of the recipe: `Dockerfile` in its directory.
    pub fn dockerfile_path(&self) -> (path: String)
        ensures
            path@ == recipe_file(self.image_name()@),
    {
        let mut path = self.dir();
        path.append("/");
        path.append(DOCKERFILE);
        path
    }

    /// The name under which the image is built: `name:tag`.
    pub fn name(&self) -> (name: String)
        ensures
            name@ == self.image_name()@.text(),
    {
        self.image.to_string()
    }
}

/// Whether `recipe` is what is made of `rendering` for `image`: the fault,
/// if there is one, and else the recipe that holds the rendered text and
/// `image`.
pub open spec fn made_of<'a>(
    recipe: Result<ImageMetadata<'a>, Error>,
    image: &'a ImageName<'a>,
    rendering: Rendering,
) -> bool {
    match recipe {
        Ok(recipe) => {
            &&& fault(rendering) is None
            &&& rendering matches Rendering::Rendered { template, text }
            &&& recipe.text() == text@
            &&& recipe.image_name() == image
        },
        Err(error) => fault(rendering) == Some(error),
    }
}

/// A template with its three targets that the engine rendered gives the
/// rendered text as the recipe, whatever the text holds.
pub proof fn lemma_rendered_template_gives_recipe(template: String, text: String)
    requires
        has_target(template@, "name"@),
        has_target(template@, "version"@),
        has_target(template@, "run_layer"@),
    ensures
        fault((Rendering::Rendered { template, text })) is None,
{
}

/// A template that lacks one of its three targets gives no recipe, whatever
/// the engine made of it: the fault is the template's.
pub proof fn lemma_missing_target_is_a_template_fault(
    template: String,
    text: String,
    said: Vec<String>,
)
    requires
        !has_target(template@, "name"@) || !has_target(template@, "version"@) || !has_target(
            template@,
            "run_layer"@,
        ),
    ensures
        fault((Rendering::Rendered { template, text })) matches Some(Error::Template(_)),
        fault((Rendering::Failed { template, said })) matches Some(Error::Template(_)),
{
}

/// What is made of one rendering for one image is always the same: both
/// times a recipe with the same text, or both times the same error.
pub proof fn lemma_synthesis_is_a_function<'a>(
    first: Result<ImageMetadata<'a>, Error>,
    second: Result<ImageMetadata<'a>, Error>,
    image: &'a ImageName<'a>,
    rendering: Rendering,
)
    requires
        made_of(first, image, rendering),
        made_of(second, image, rendering),
    ensures
        first is Ok <==> second is Ok,
        first matches Ok(a) ==> second matches Ok(b) && a.text() == b.text() && a.image_name()
            == b.image_name(),
        first matches Err(a) ==> second matches Err(b) && a == b,
{
}

} // verus!
