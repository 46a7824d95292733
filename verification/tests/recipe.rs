use std::error::Error as StdError;

use libtigen::package_manager::{Apt, Pacman};
use libtigen::{
    recipe_context, DecodingError, Distro, Error, ImageMetadata, ImageName, Rendering,
    TemplateFault, DOCKERFILE,
};
use tera::Tera;

const TEMPLATE: &str = "FROM {{ name }}:{{ version }}\nRUN {{ run_layer }}\n";

fn templates(source: &str) -> Tera {
    let mut templates = Tera::default();
    templates.add_raw_template("Dockerfile", source).expect("a template that parses");
    templates
}

fn said(err: &tera::Error) -> Vec<String> {
    let mut said = vec![err.to_string()];
    let mut cause = err.source();
    while let Some(err) = cause {
        said.push(err.to_string());
        cause = err.source();
    }
    said
}

fn render(source: &str, distro: Distro, image: &ImageName<'_>) -> Rendering {
    let template = source.to_string();
    match templates(source).render(DOCKERFILE, &recipe_context(distro, image)) {
        Ok(text) => Rendering::Rendered { template, text },
        Err(err) => match err.kind {
            tera::ErrorKind::TemplateNotFound(_) => Rendering::NotFound(said(&err)),
            _ => Rendering::Failed { template, said: said(&err) },
        },
    }
}

fn recipe<'a>(source: &str, image: &'a ImageName<'a>) -> Result<ImageMetadata<'a>, Error> {
    let distro = Distro::from_str(image.name())?;
    ImageMetadata::try_new(image, render(source, distro, image))
}

fn rendered(template: &str, text: &str) -> Rendering {
    Rendering::Rendered { template: template.to_string(), text: text.to_string() }
}

fn failed(template: &str, said: &[&str]) -> Rendering {
    Rendering::Failed { template: template.to_string(), said: words(said) }
}

fn words(said: &[&str]) -> Vec<String> {
    said.iter().map(|s| s.to_string()).collect()
}

#[test]
fn recipe_for_ubuntu() {
    let image = ImageName::parse("ubuntu:20.04").unwrap();
    let recipe = recipe(TEMPLATE, &image).unwrap();
    assert_eq!(
        recipe.dockerfile(),
        "FROM ubuntu:20.04\nRUN apt update -y && apt upgrade -y && apt install -y sudo\n"
    );
    assert_eq!(recipe.image().name(), "ubuntu");
    assert_eq!(recipe.image().tag(), "20.04");
}

#[test]
fn recipe_names_the_distribution_canonically() {
    let image = ImageName::parse("ArchLinux").unwrap();
    let recipe = recipe(TEMPLATE, &image).unwrap();
    assert_eq!(
        recipe.dockerfile(),
        "FROM archlinux:latest\nRUN pacman -Syy --noconfirm && pacman -Su --noconfirm && pacman -S --noconfirm sudo\n"
    );
    assert_eq!(recipe.name(), "ArchLinux:latest");
}

#[test]
fn recipe_is_the_same_when_made_twice() {
    let image = ImageName::parse("fedora:37").unwrap();
    let first = recipe(TEMPLATE, &image).unwrap();
    let second = recipe(TEMPLATE, &image).unwrap();
    assert_eq!(first.dockerfile(), second.dockerfile());
    assert_eq!(first.dockerfile().as_bytes(), second.dockerfile().as_bytes());
    assert_eq!(
        first.dockerfile(),
        "FROM fedora:37\nRUN dnf check-update -y && dnf upgrade -y && dnf install -y sudo\n"
    );
}

#[test]
fn synthesize_for_a_given_distribution() {
    let image = ImageName::parse("anything:1").unwrap();
    let rendering = render(TEMPLATE, Distro::Debian(Apt {}), &image);
    let recipe = ImageMetadata::synthesize(&image, rendering).unwrap();
    assert_eq!(
        recipe.dockerfile(),
        "FROM debian:1\nRUN apt update -y && apt upgrade -y && apt install -y sudo\n"
    );
}

#[test]
fn synthesize_keeps_the_rendered_text_whatever_it_holds() {
    let image = ImageName::parse("debian:12").unwrap();
    for text in ["# anything\n", "", "FROM UBUNTU:20.04\n", "{{ name }}"] {
        let recipe = ImageMetadata::synthesize(&image, rendered(TEMPLATE, text)).unwrap();
        assert_eq!(recipe.dockerfile(), text);
        assert_eq!(recipe.image().to_string(), "debian:12");
    }
}

#[test]
fn values_may_pass_through_filters() {
    let image = ImageName::parse("ubuntu:20.04").unwrap();
    let source = "FROM {{ name | upper }}:{{ version|replace(from=\".\", to=\"-\") }}\nRUN {{run_layer | truncate(length=3, end=\"\")}}\n";
    let recipe = recipe(source, &image).unwrap();
    assert_eq!(recipe.dockerfile(), "FROM UBUNTU:20-04\nRUN apt\n");
}

#[test]
fn unsupported_distribution_is_refused() {
    let image = ImageName::parse("gentoo:latest").unwrap();
    match ImageMetadata::try_new(&image, rendered(TEMPLATE, "FROM gentoo:latest")) {
        Err(Error::UnsupportedDistribution(unknown)) => assert_eq!(unknown.0, "gentoo"),
        other => panic!("unexpected: {:?}", other),
    }
    for rendering in [
        Rendering::NotFound(vec![]),
        Rendering::NotLoaded(vec![]),
        failed(TEMPLATE, &[]),
        failed("", &[]),
        rendered("", ""),
    ] {
        assert!(matches!(
            ImageMetadata::try_new(&image, rendering),
            Err(Error::UnsupportedDistribution(_))
        ));
    }
}

#[test]
fn missing_template_is_a_template_error() {
    let image = ImageName::parse("ubuntu").unwrap();
    let context = recipe_context(Distro::Ubuntu(Apt {}), &image);
    let mut other = Tera::default();
    other.add_raw_template("Containerfile", TEMPLATE).unwrap();
    for templates in [Tera::default(), other] {
        let err = templates.render(DOCKERFILE, &context).unwrap_err();
        assert!(matches!(err.kind, tera::ErrorKind::TemplateNotFound(_)));
        match ImageMetadata::try_new(&image, Rendering::NotFound(said(&err))) {
            Err(Error::Template(TemplateFault::NotFound(said))) => {
                assert_eq!(said, vec!["Template 'Dockerfile' not found"])
            }
            other => panic!("unexpected: {:?}", other),
        }
    }
}

#[test]
fn templates_that_do_not_load_are_a_template_error() {
    let image = ImageName::parse("ubuntu").unwrap();
    for said in [
        words(&[]),
        words(&["Tera expects a glob as input, no * were found in `templates`"]),
        words(&["\n* Couldn't open template '\"templates/Dockerfile\"'\nPermission denied"]),
        words(&["\n* Failed to read template '\"templates/Dockerfile\"'\nstream did not contain valid UTF-8"]),
        words(&["failed to parse"]),
    ] {
        match ImageMetadata::try_new(&image, Rendering::NotLoaded(said.clone())) {
            Err(Error::Template(TemplateFault::NotLoaded(kept))) => assert_eq!(kept, said),
            other => panic!("unexpected: {:?}", other),
        }
    }
}

#[test]
fn bad_syntax_is_a_render_error() {
    let image = ImageName::parse("ubuntu").unwrap();
    let mut broken = Tera::default();
    let err = broken.add_raw_template("Dockerfile", "FROM {{ name").unwrap_err();
    assert_eq!(err.to_string(), "Failed to parse 'Dockerfile'");
    match ImageMetadata::try_new(&image, Rendering::NotLoaded(said(&err))) {
        Err(Error::Render(kept)) => assert_eq!(kept, said(&err)),
        other => panic!("unexpected: {:?}", other),
    }
    let said = words(&["\n* Failed to parse \"/srv/templates/Dockerfile\"\n --> 1:9\n  |"]);
    match ImageMetadata::try_new(&image, Rendering::NotLoaded(said.clone())) {
        Err(Error::Render(kept)) => assert_eq!(kept, said),
        other => panic!("unexpected: {:?}", other),
    }
    let said = words(&["first", "then: Failed to parse it"]);
    assert!(matches!(
        ImageMetadata::try_new(&image, Rendering::NotLoaded(said)),
        Err(Error::Render(_))
    ));
}

#[test]
fn misnamed_value_is_a_template_error() {
    let image = ImageName::parse("ubuntu").unwrap();
    let source = "FROM {{ name }}:{{ version }}\nRUN {{ run_layer }}\n# {{ base }}";
    match recipe(source, &image) {
        Err(Error::Template(TemplateFault::UnknownValue(said))) => assert_eq!(
            said,
            vec![
                "Failed to render 'Dockerfile'",
                "Variable `base` not found in context while rendering 'Dockerfile'"
            ]
        ),
        other => panic!("unexpected: {:?}", other),
    }
    let source = "FROM {{ name }}:{{ version }}\nRUN {{ run_layer }}\n# {{ name.first }}";
    assert!(matches!(
        recipe(source, &image),
        Err(Error::Template(TemplateFault::UnknownValue(_)))
    ));
    let source = "FROM {{ name }}:{{ version }}\nRUN {{ run_layer }}\n# {{ name[place] }}";
    match recipe(source, &image) {
        Err(Error::Template(TemplateFault::UnknownValue(said))) => {
            assert!(said.iter().any(|m| m.starts_with("Variable name[place] can not be evaluated")))
        }
        other => panic!("unexpected: {:?}", other),
    }
}

#[test]
fn misnamed_target_is_a_missing_target() {
    let image = ImageName::parse("ubuntu").unwrap();
    assert!(matches!(
        recipe("FROM {{ name }}:{{ versoin }}\nRUN {{ run_layer }}", &image),
        Err(Error::Template(TemplateFault::LacksVersion))
    ));
    assert!(matches!(
        recipe("FROM {{ base }}", &image),
        Err(Error::Template(TemplateFault::LacksName))
    ));
}

#[test]
fn template_without_a_target_is_a_template_error() {
    let image = ImageName::parse("ubuntu:22.04").unwrap();
    let line = "apt update -y && apt upgrade -y && apt install -y sudo";
    assert!(matches!(
        recipe("FROM scratch\n", &image),
        Err(Error::Template(TemplateFault::LacksName))
    ));
    assert!(matches!(
        recipe("FROM {{ name }}\nRUN {{ run_layer }}\n", &image),
        Err(Error::Template(TemplateFault::LacksVersion))
    ));
    assert!(matches!(
        recipe("FROM {{ name }}:{{ version }}\n", &image),
        Err(Error::Template(TemplateFault::LacksRunLayer))
    ));
    assert!(matches!(
        recipe("{{ version }} {{ run_layer }}\n", &image),
        Err(Error::Template(TemplateFault::LacksName))
    ));
    let fixed = format!("FROM ubuntu:{{{{ version }}}}\nRUN {{{{ run_layer }}}}\n");
    assert!(matches!(recipe(&fixed, &image), Err(Error::Template(TemplateFault::LacksName))));
    let fixed = format!("FROM ubuntu:22.04\nRUN {}\n", line);
    assert!(matches!(recipe(&fixed, &image), Err(Error::Template(TemplateFault::LacksName))));
    let text = format!("FROM ubuntu:22.04\nRUN {}\n", line);
    assert!(matches!(
        ImageMetadata::synthesize(&image, rendered("FROM {{ name }}:{{ version }}", &text)),
        Err(Error::Template(TemplateFault::LacksRunLayer))
    ));
}

#[test]
fn a_missing_target_comes_before_what_the_engine_said() {
    let image = ImageName::parse("fedora:37").unwrap();
    assert!(matches!(
        ImageMetadata::synthesize(&image, failed("{{ name }}", &["anything"])),
        Err(Error::Template(TemplateFault::LacksVersion))
    ));
    assert!(matches!(
        recipe("{{ version }}{{ run_layer }}{{ throw(message=\"no\") }}", &image),
        Err(Error::Template(TemplateFault::LacksName))
    ));
}

#[test]
fn failing_template_is_a_render_error() {
    let image = ImageName::parse("ubuntu").unwrap();
    let targets = "{{ name }}{{ version }}{{ run_layer }}";
    match recipe(&format!("{}{{{{ throw(message=\"no\") }}}}", targets), &image) {
        Err(Error::Render(said)) => {
            assert_eq!(said.first().map(|s| s.as_str()), Some("Failed to render 'Dockerfile'"))
        }
        other => panic!("unexpected: {:?}", other),
    }
    assert!(matches!(
        recipe(&format!("{}{{% include \"absent\" %}}", targets), &image),
        Err(Error::Render(_))
    ));
    assert!(matches!(
        recipe(&format!("{}{{{{ 1 / name }}}}", targets), &image),
        Err(Error::Render(_))
    ));
}

#[test]
fn engine_failures_are_told_apart_by_what_was_said() {
    let image = ImageName::parse("ubuntu").unwrap();
    let made = |rendering: Rendering| ImageMetadata::synthesize(&image, rendering);

    let said = words(&["Template 'Dockerfile' not found"]);
    match made(Rendering::NotFound(said.clone())) {
        Err(Error::Template(TemplateFault::NotFound(kept))) => assert_eq!(kept, said),
        other => panic!("unexpected: {:?}", other),
    }
    let said = ["Failed to render 'x'", "Variable `a` not found in context while rendering 'x'"];
    match made(failed(TEMPLATE, &said)) {
        Err(Error::Template(TemplateFault::UnknownValue(kept))) => assert_eq!(kept, words(&said)),
        other => panic!("unexpected: {:?}", other),
    }
    for said in [
        ["Variable `a.b` not found in context"],
        ["Variable a[b] can not be evaluated because: Variable `b` not found in context while rendering 'x'"],
    ] {
        assert!(matches!(
            made(failed(TEMPLATE, &said)),
            Err(Error::Template(TemplateFault::UnknownValue(_)))
        ));
    }
    let said = ["Failed to render 'x'", "Filter 'nothing' not found"];
    match made(failed(TEMPLATE, &said)) {
        Err(Error::Render(kept)) => assert_eq!(kept, words(&said)),
        other => panic!("unexpected: {:?}", other),
    }
    assert!(matches!(made(failed(TEMPLATE, &[])), Err(Error::Render(_))));
    for said in [
        [""],
        ["Variable `a`"],
        ["` not found in context"],
        ["the Variable `a` not found in context"],
        ["variable `a` not found in context"],
        ["Variable `a` was used in a math operation but is not a number"],
        ["Failed to parse 'Dockerfile'"],
    ] {
        assert!(matches!(made(failed(TEMPLATE, &said)), Err(Error::Render(_))));
    }
}

#[test]
fn context_holds_the_three_values() {
    let image = ImageName::parse("ubuntu:20.04").unwrap();
    let context = recipe_context(Distro::Ubuntu(Apt {}), &image);
    assert_eq!(context.get("name").and_then(|v| v.as_str()), Some("ubuntu"));
    assert_eq!(context.get("version").and_then(|v| v.as_str()), Some("20.04"));
    assert_eq!(
        context.get("run_layer").and_then(|v| v.as_str()),
        Some("apt update -y && apt upgrade -y && apt install -y sudo")
    );
    assert_eq!(context.into_json().as_object().map(|o| o.len()), Some(3));
}

#[test]
fn context_takes_the_name_from_the_distribution() {
    let image = ImageName::parse("UBUNTU").unwrap();
    let context = recipe_context(Distro::Archlinux(Pacman {}), &image);
    assert_eq!(context.get("name").and_then(|v| v.as_str()), Some("archlinux"));
    assert_eq!(context.get("version").and_then(|v| v.as_str()), Some("latest"));
    assert_eq!(
        context.get("run_layer").and_then(|v| v.as_str()),
        Some("pacman -Syy --noconfirm && pacman -Su --noconfirm && pacman -S --noconfirm sudo")
    );
}

#[test]
fn recipe_made_from_a_text() {
    let image = ImageName::parse("debian:12").unwrap();
    let recipe = ImageMetadata::new(&image, "FROM debian:12\n".to_string());
    assert_eq!(recipe.dockerfile(), "FROM debian:12\n");
    assert_eq!(recipe.image().to_string(), "debian:12");
}

#[test]
fn recipe_paths_and_name() {
    let image = ImageName::parse("ubuntu:lunar-20230301").unwrap();
    let recipe = ImageMetadata::new(&image, String::new());
    assert_eq!(recipe.dir(), "images/ubuntu/lunar-20230301");
    assert_eq!(recipe.dockerfile_path(), "images/ubuntu/lunar-20230301/Dockerfile");
    assert_eq!(recipe.name(), "ubuntu:lunar-20230301");
    let image = ImageName::parse("archlinux").unwrap();
    let recipe = ImageMetadata::new(&image, String::new());
    assert_eq!(recipe.dir(), "images/archlinux/latest");
    assert_eq!(recipe.dockerfile_path(), "images/archlinux/latest/Dockerfile");
    assert_eq!(recipe.name(), "archlinux:latest");
}

#[test]
fn decoding_error_becomes_unsupported_distribution() {
    match Error::from(DecodingError("gentoo".to_string())) {
        Error::UnsupportedDistribution(unknown) => assert_eq!(unknown.0, "gentoo"),
        other => panic!("unexpected: {:?}", other),
    }
}
