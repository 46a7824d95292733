//! The command lines of the programs that build an image and open a session
//! in it. Nothing here runs a program: each function says what is to be run.

use crate::image::{recipe_file, ImageMetadata};
use crate::image_name::ImageName;
use crate::text::texts;
use vstd::prelude::*;
use vstd::string::*;

verus! {

/// What a command line says: the program and its arguments.
pub struct CommandLine {
    pub program: Seq<char>,
    pub args: Seq<Seq<char>>,
}

/// A program to run and the arguments to run it with.
#[derive(Debug)]
pub struct Invocation {
    pub program: String,
    pub args: Vec<String>,
}

impl View for Invocation {
    type V = CommandLine;

    open spec fn view(&self) -> CommandLine {
        CommandLine { program: self.program@, args: texts(self.args@) }
    }
}

/// A program that builds an image from a recipe.
pub trait ImageBuilder {
    /// The command line that builds the image of `recipe`.
    spec fn build_line(&self, recipe: &ImageMetadata<'_>) -> CommandLine;

    /// The command line that builds the image of `recipe`.
    fn build_command(&self, recipe: &ImageMetadata<'_>) -> (command: Invocation)
        ensures
            command@ == self.build_line(recipe),
    ;
}

/// The docker command-line client.
pub struct Docker {
    bin: String,
}

impl Docker {
    /// The program that is run.
    pub closed spec fn program(&self) -> Seq<char> {
        self.bin@
    }

    /// The client found as `docker`.
    pub fn new() -> (docker: Self)
        ensures
            docker.program() == "docker"@,
    {
        Self { bin: "docker".to_owned() }
    }
}

impl Default for Docker {
    fn default() -> (docker: Self)
        ensures
            docker.program() == "docker"@,
    {
        Self::new()
    }
}

impl ImageBuilder for Docker {
    /// `build -f <recipe file> -t <name:tag> .`
    open spec fn build_line(&self, recipe: &ImageMetadata<'_>) -> CommandLine {
        CommandLine {
            program: self.program(),
            args: seq![
                "build"@,
                "-f"@,
                recipe_file(recipe.image_name()@),
                "-t"@,
                recipe.image_name()@.text(),
                "."@,
            ],
        }
    }

    fn build_command(&self, recipe: &ImageMetadata<'_>) -> (command: Invocation) {
        let mut args: Vec<String> = Vec::new();
        args.push("build".to_owned());
        args.push("-f".to_owned());
        args.push(recipe.dockerfile_path());
        args.push("-t".to_owned());
        args.push(recipe.name());
        args.push(".".to_owned());
        let command = Invocation { program: self.bin.clone(), args };
        assert(command@.args =~= self.build_line(recipe).args);
        command
    }
}

/// The podman command-line client.
pub struct Podman {
    bin: String,
}

impl Podman {
    /// The program that is run.
    pub closed spec fn program(&self) -> Seq<char> {
        self.bin@
    }

    /// The client found as `podman`.
    pub fn new() -> (podman: Self)
        ensures
            podman.program() == "podman"@,
    {
        Self { bin: "podman".to_owned() }
    }
}

impl Default for Podman {
    fn default() -> (podman: Self)
        ensures
            podman.program() == "podman"@,
    {
        Self::new()
    }
}

impl ImageBuilder for Podman {
    /// `build -t <name:tag> -f <recipe file> .`
    open spec fn build_line(&self, recipe: &ImageMetadata<'_>) -> CommandLine {
        CommandLine {
            program: self.program(),
            args: seq![
                "build"@,
                "-t"@,
                recipe.image_name()@.text(),
                "-f"@,
                recipe_file(recipe.image_name()@),
                "."@,
            ],
        }
    }

    fn build_command(&self, recipe: &ImageMetadata<'_>) -> (command: Invocation) {
        let mut args: Vec<String> = Vec::new();
        args.push("build".to_owned());
        args.push("-t".to_owned());
        args.push(recipe.name());
        args.push("-f".to_owned());
        args.push(recipe.dockerfile_path());
        args.push(".".to_owned());
        let command = Invocation { program: self.bin.clone(), args };
        assert(command@.args =~= self.build_line(recipe).args);
        command
    }
}

/// The toolbox command-line client, which opens a session in an image.
pub struct Toolbox {
    bin: String,
}

impl Toolbox {
    /// The program that is run.
    pub closed spec fn program(&self) -> Seq<char> {
        self.bin@
    }

    /// The client found as `toolbox`.
    pub fn new() -> (toolbox: Self)
        ensures
            toolbox.program() == "toolbox"@,
    {
        Self { bin: "toolbox".to_owned() }
    }

    /// The command line that creates a session bound to `image`:
    /// `create -i <name:tag>`.
    pub fn create_command(&self, image: &ImageName<'_>) -> (command: Invocation)
        ensures
            command@.program == self.program(),
            command@.args == seq!["create"@, "-i"@, image@.text()],
    {
        let mut args: Vec<String> = Vec::new();
        args.push("create".to_owned());
        args.push("-i".to_owned());
        args.push(image.to_string());
        let command = Invocation { program: self.bin.clone(), args };
        assert(command@.args =~= seq!["create"@, "-i"@, image@.text()]);
        command
    }

    /// The command line that enters the session: `enter`.
    pub fn enter_command(&self) -> (command: Invocation)
        ensures
            command@.program == self.program(),
            command@.args == seq!["enter"@],
    {
        let mut args: Vec<String> = Vec::new();
        args.push("enter".to_owned());
        let command = Invocation { program: self.bin.clone(), args };
        assert(command@.args =~= seq!["enter"@]);
        command
    }
}

impl Default for Toolbox {
    fn default() -> (toolbox: Self)
        ensures
            toolbox.program() == "toolbox"@,
    {
        Toolbox::new()
    }
}

} // verus!
