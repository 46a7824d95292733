//! Build recipes for disposable, distribution-specific development images:
//! an identifier `name[:tag]` is read, its distribution is found, and the
//! recipe template is rendered with the commands that bring a fresh image of
//! that distribution up to date.

pub mod backend;
pub mod distro;
pub mod error;
pub mod image;
pub mod image_name;
pub mod package_manager;
pub mod targets;
pub mod template;
pub mod text;

pub use crate::backend::{CommandLine, Docker, ImageBuilder, Invocation, Podman, Toolbox};
pub use crate::distro::{run_layer, Distro};
pub use crate::error::{DecodingError, Error, TemplateFault};
pub use crate::image::{recipe_context, ImageMetadata, Rendering, DOCKERFILE};
pub use crate::image_name::{Identifier, ImageName};
