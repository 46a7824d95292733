use libtigen::package_manager::{Apt, Dnf, Pacman, Zypper};
use libtigen::{run_layer, Distro};

#[test]
fn resolve_each_supported_name() {
    assert_eq!(Distro::from_str("ubuntu").unwrap(), Distro::Ubuntu(Apt {}));
    assert_eq!(Distro::from_str("debian").unwrap(), Distro::Debian(Apt {}));
    assert_eq!(Distro::from_str("archlinux").unwrap(), Distro::Archlinux(Pacman {}));
    assert_eq!(Distro::from_str("opensuse").unwrap(), Distro::OpenSuse(Zypper {}));
    assert_eq!(Distro::from_str("fedora").unwrap(), Distro::Fedora(Dnf {}));
}

#[test]
fn resolve_is_case_insensitive() {
    let upper = Distro::from_str("UBUNTU").unwrap();
    let lower = Distro::from_str("ubuntu").unwrap();
    assert_eq!(upper, lower);
    assert_eq!(upper, Distro::Ubuntu(Apt {}));
    assert_eq!(Distro::from_str("ArchLinux").unwrap(), Distro::Archlinux(Pacman {}));
    assert_eq!(Distro::from_str("openSUSE").unwrap(), Distro::OpenSuse(Zypper {}));
    assert_eq!(Distro::from_str("FEDORA").unwrap(), Distro::Fedora(Dnf {}));
    assert_eq!(Distro::from_str("dEbIaN").unwrap(), Distro::Debian(Apt {}));
}

#[test]
fn resolve_gentoo_is_unsupported() {
    let unknown = Distro::from_str("gentoo").unwrap_err();
    assert_eq!(unknown.0, "gentoo");
}

#[test]
fn resolve_keeps_the_name_as_given_in_the_error() {
    assert_eq!(Distro::from_str("Gentoo").unwrap_err().0, "Gentoo");
    assert_eq!(Distro::from_str("").unwrap_err().0, "");
    assert_eq!(Distro::from_str("ubuntu ").unwrap_err().0, "ubuntu ");
    assert_eq!(Distro::from_str("ubunt").unwrap_err().0, "ubunt");
    assert_eq!(Distro::from_str("ubuntuu").unwrap_err().0, "ubuntuu");
}

#[test]
fn resolve_folds_ascii_letters_only() {
    // U+212A, the Kelvin sign, is no letter of any supported name.
    assert!(Distro::from_str("\u{212a}ubuntu").is_err());
    // The bytes of `@` and of the backtick neighbour the letters.
    assert!(Distro::from_str("@buntu").is_err());
    assert!(Distro::from_str("`buntu").is_err());
    assert!(Distro::from_str("[buntu").is_err());
    assert!(Distro::from_str("{buntu").is_err());
    assert!(Distro::from_str("\u{fc}buntu").is_err());
}

#[test]
fn canonical_names() {
    assert_eq!(Distro::Ubuntu(Apt {}).name(), "ubuntu");
    assert_eq!(Distro::Debian(Apt {}).name(), "debian");
    assert_eq!(Distro::Archlinux(Pacman {}).name(), "archlinux");
    assert_eq!(Distro::OpenSuse(Zypper {}).name(), "opensuse");
    assert_eq!(Distro::Fedora(Dnf {}).name(), "fedora");
}

#[test]
fn every_distribution_is_found_under_its_canonical_name() {
    for distro in [
        Distro::Ubuntu(Apt {}),
        Distro::Debian(Apt {}),
        Distro::Archlinux(Pacman {}),
        Distro::OpenSuse(Zypper {}),
        Distro::Fedora(Dnf {}),
    ] {
        assert_eq!(Distro::from_str(distro.name()).unwrap(), distro);
        assert_eq!(Distro::from_str(&distro.name().to_uppercase()).unwrap(), distro);
    }
}

#[test]
fn bring_up_line_for_ubuntu() {
    assert_eq!(
        Distro::from_str("ubuntu").unwrap().run_layer(),
        "apt update -y && apt upgrade -y && apt install -y sudo"
    );
}

#[test]
fn bring_up_line_for_each_distribution() {
    assert_eq!(
        Distro::Debian(Apt {}).run_layer(),
        "apt update -y && apt upgrade -y && apt install -y sudo"
    );
    assert_eq!(
        Distro::Archlinux(Pacman {}).run_layer(),
        "pacman -Syy --noconfirm && pacman -Su --noconfirm && pacman -S --noconfirm sudo"
    );
    assert_eq!(
        Distro::OpenSuse(Zypper {}).run_layer(),
        "zypper refresh --non-interactive && zypper update --non-interactive && zypper install --non-interactive sudo"
    );
    assert_eq!(
        Distro::Fedora(Dnf {}).run_layer(),
        "dnf check-update -y && dnf upgrade -y && dnf install -y sudo"
    );
}

#[test]
fn bring_up_line_of_a_package_manager() {
    assert_eq!(run_layer(Apt::default()), "apt update -y && apt upgrade -y && apt install -y sudo");
    assert_eq!(
        run_layer(Dnf::default()),
        "dnf check-update -y && dnf upgrade -y && dnf install -y sudo"
    );
    assert_eq!(run_layer(Pacman::default()), Distro::Archlinux(Pacman {}).run_layer());
    assert_eq!(run_layer(Zypper::default()), Distro::OpenSuse(Zypper {}).run_layer());
}

#[test]
fn a_name_parses_into_its_distribution() {
    assert_eq!("ubuntu".parse::<Distro>().unwrap(), Distro::Ubuntu(Apt {}));
    assert_eq!("OpenSUSE".parse::<Distro>().unwrap(), Distro::OpenSuse(Zypper {}));
    assert_eq!("gentoo".parse::<Distro>().unwrap_err().0, "gentoo");
    let fedora: Distro = "Fedora".parse().unwrap();
    assert_eq!(fedora, Distro::from_str("fedora").unwrap());
}
