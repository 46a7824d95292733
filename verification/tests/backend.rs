use libtigen::{Docker, ImageBuilder, ImageMetadata, ImageName, Podman, Toolbox};

#[test]
fn docker_build_command() {
    let image = ImageName::parse("ubuntu:20.04").unwrap();
    let recipe = ImageMetadata::new(&image, "FROM ubuntu:20.04\n".to_string());
    let command = Docker::new().build_command(&recipe);
    assert_eq!(command.program, "docker");
    assert_eq!(
        command.args,
        vec!["build", "-f", "images/ubuntu/20.04/Dockerfile", "-t", "ubuntu:20.04", "."]
    );
}

#[test]
fn podman_build_command() {
    let image = ImageName::parse("fedora").unwrap();
    let recipe = ImageMetadata::new(&image, "FROM fedora:latest\n".to_string());
    let command = Podman::new().build_command(&recipe);
    assert_eq!(command.program, "podman");
    assert_eq!(
        command.args,
        vec!["build", "-t", "fedora:latest", "-f", "images/fedora/latest/Dockerfile", "."]
    );
}

#[test]
fn both_builders_are_given_the_recipe_file_and_the_image_name() {
    let image = ImageName::parse("ubuntu:lunar-20230301").unwrap();
    let recipe = ImageMetadata::new(&image, "FROM ubuntu:lunar-20230301\n".to_string());
    for command in [Docker::new().build_command(&recipe), Podman::new().build_command(&recipe)] {
        assert!(command.args.contains(&"images/ubuntu/lunar-20230301/Dockerfile".to_string()));
        assert!(command.args.contains(&"ubuntu:lunar-20230301".to_string()));
        assert!(!command.args.contains(&"FROM ubuntu:lunar-20230301\n".to_string()));
        assert_eq!(command.args.len(), 6);
    }
}

#[test]
fn default_builders_are_the_new_ones() {
    let image = ImageName::parse("debian:12").unwrap();
    let recipe = ImageMetadata::new(&image, String::new());
    assert_eq!(Docker::default().build_command(&recipe).program, "docker");
    assert_eq!(Podman::default().build_command(&recipe).program, "podman");
    assert_eq!(Toolbox::default().enter_command().program, "toolbox");
}

#[test]
fn toolbox_create_command() {
    let image = ImageName::parse("archlinux").unwrap();
    let command = Toolbox::new().create_command(&image);
    assert_eq!(command.program, "toolbox");
    assert_eq!(command.args, vec!["create", "-i", "archlinux:latest"]);
    let image = ImageName::parse("ubuntu:lunar-20230301").unwrap();
    let command = Toolbox::new().create_command(&image);
    assert_eq!(command.args, vec!["create", "-i", "ubuntu:lunar-20230301"]);
}

#[test]
fn toolbox_enter_command() {
    let command = Toolbox::new().enter_command();
    assert_eq!(command.program, "toolbox");
    assert_eq!(command.args, vec!["enter"]);
}
