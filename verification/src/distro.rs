//! The supported distributions, each bound to the dialect of its package
//! manager, and the command line that brings a fresh image up to date.

use crate::error::DecodingError;
use crate::package_manager::{install_tokens, Apt, Dnf, PackageManager, Pacman, Zypper};
use crate::text::{join, join_words, lowercased, lowered, spells, tokens};
use vstd::prelude::*;
use vstd::string::*;

verus! {

/// A supported distribution together with its package manager.
#[derive(Debug, Clone, Copy, PartialEq, Eq, Structural)]
pub enum Distro {
    Ubuntu(Apt),
    Debian(Apt),
    Archlinux(Pacman),
    OpenSuse(Zypper),
    Fedora(Dnf),
}

/// The command line that brings an image up to date with `manager` and
/// installs the baseline package `sudo`: refresh, then upgrade, then install,
/// each command's words joined by one space, and each command run only if the
/// one before it succeeded.
pub open spec fn bring_up<P: PackageManager>(manager: P) -> Seq<char> {
    join(manager.update_tokens(), " "@) + " && "@ + join(manager.upgrade_tokens(), " "@) + " && "@
        + join(install_tokens(manager, seq!["sudo"@]), " "@)
}

/// The bring-up command line of `package_manager`.
pub fn run_layer<P: PackageManager>(package_manager: P) -> (line: String)
    ensures
        line@ == bring_up(package_manager),
{
    let update = join_words(&package_manager.update(), " ");
    let upgrade = join_words(&package_manager.upgrade(), " ");
    let packages = vec!["sudo"];
    assert(tokens(packages@) =~= seq!["sudo"@]);
    let install = join_words(&package_manager.install(packages.as_slice()), " ");
    let mut line = update;
    line.append(" && ");
    line.append(upgrade.as_str());
    line.append(" && ");
    line.append(install.as_str());
    line
}

impl Distro {
    /// The name that the distribution goes by, in small letters.
    pub open spec fn canonical_name(self) -> Seq<char> {
        match self {
            Distro::Ubuntu(_) => "ubuntu"@,
            Distro::Debian(_) => "debian"@,
            Distro::Archlinux(_) => "archlinux"@,
            Distro::OpenSuse(_) => "opensuse"@,
            Distro::Fedora(_) => "fedora"@,
        }
    }

    /// The distribution that answers to `name`, whatever the case of its
    /// letters, if there is one.
    pub open spec fn resolve(name: Seq<char>) -> Option<Distro> {
        let lower = lowercased(name);
        if lower == "ubuntu"@ {
            Some(Distro::Ubuntu(Apt {  }))
        } else if lower == "debian"@ {
            Some(Distro::Debian(Apt {  }))
        } else if lower == "archlinux"@ {
            Some(Distro::Archlinux(Pacman {  }))
        } else if lower == "opensuse"@ {
            Some(Distro::OpenSuse(Zypper {  }))
        } else if lower == "fedora"@ {
            Some(Distro::Fedora(Dnf {  }))
        } else {
            None
        }
    }

    /// The bring-up command line of the distribution.
    pub open spec fn bring_up(self) -> Seq<char> {
        match self {
            Distro::Ubuntu(pm) => bring_up(pm),
            Distro::Debian(pm) => bring_up(pm),
            Distro::Archlinux(pm) => bring_up(pm),
            Distro::OpenSuse(pm) => bring_up(pm),
            Distro::Fedora(pm) => bring_up(pm),
        }
    }

    /// The program of the distribution's package manager.
    pub open spec fn program(self) -> Seq<char> {
        match self {
            Distro::Ubuntu(pm) => pm.program(),
            Distro::Debian(pm) => pm.program(),
            Distro::Archlinux(pm) => pm.program(),
            Distro::OpenSuse(pm) => pm.program(),
            Distro::Fedora(pm) => pm.program(),
        }
    }

    /// The words with which the distribution refreshes its package index.
    pub open spec fn update_tokens(self) -> Seq<Seq<char>> {
        match self {
            Distro::Ubuntu(pm) => pm.update_tokens(),
            Distro::Debian(pm) => pm.update_tokens(),
            Distro::Archlinux(pm) => pm.update_tokens(),
            Distro::OpenSuse(pm) => pm.update_tokens(),
            Distro::Fedora(pm) => pm.update_tokens(),
        }
    }

    /// The words with which the distribution upgrades what is installed.
    pub open spec fn upgrade_tokens(self) -> Seq<Seq<char>> {
        match self {
            Distro::Ubuntu(pm) => pm.upgrade_tokens(),
            Distro::Debian(pm) => pm.upgrade_tokens(),
            Distro::Archlinux(pm) => pm.upgrade_tokens(),
            Distro::OpenSuse(pm) => pm.upgrade_tokens(),
            Distro::Fedora(pm) => pm.upgrade_tokens(),
        }
    }

    /// The words with which the distribution installs `packages`.
    pub open spec fn install_tokens(self, packages: Seq<Seq<char>>) -> Seq<Seq<char>> {
        match self {
            Distro::Ubuntu(pm) => install_tokens(pm, packages),
            Distro::Debian(pm) => install_tokens(pm, packages),
            Distro::Archlinux(pm) => install_tokens(pm, packages),
            Distro::OpenSuse(pm) => install_tokens(pm, packages),
            Distro::Fedora(pm) => install_tokens(pm, packages),
        }
    }

    /// Finds the distribution that `s` names. Letters match in either case;
    /// a name that no distribution answers to comes back in the error, as it
    /// was given.
    pub fn from_str(s: &str) -> (found: Result<Self, DecodingError>)
        ensures
            match found {
                Ok(distro) => Distro::resolve(s@) == Some(distro),
                Err(unknown) => Distro::resolve(s@) is None && unknown.0@ == s@,
            },
    {
        let lower = lowered(s);
        if spells(&lower, "ubuntu") {
            Ok(Distro::Ubuntu(Apt::default()))
        } else if spells(&lower, "debian") {
            Ok(Distro::Debian(Apt::default()))
        } else if spells(&lower, "archlinux") {
            Ok(Distro::Archlinux(Pacman::default()))
        } else if spells(&lower, "opensuse") {
            Ok(Distro::OpenSuse(Zypper::default()))
        } else if spells(&lower, "fedora") {
            Ok(Distro::Fedora(Dnf::default()))
        } else {
            Err(DecodingError(s.to_owned()))
        }
    }

    /// The canonical name of the distribution.
    pub fn name(&self) -> (name: &'static str)
        ensures
            name@ == self.canonical_name(),
    {
        match self {
            Distro::Ubuntu(_) => "ubuntu",
            Distro::Debian(_) => "debian",
            Distro::Archlinux(_) => "archlinux",
            Distro::OpenSuse(_) => "opensuse",
            Distro::Fedora(_) => "fedora",
        }
    }

    /// The bring-up command line of the distribution.
    pub fn run_layer(self) -> (line: String)
        ensures
            line@ == self.bring_up(),
    {
        match self {
            Self::Archlinux(pm) => run_layer(pm),
            Self::Debian(pm) => run_layer(pm),
            Self::Ubuntu(pm) => run_layer(pm),
            Self::OpenSuse(pm) => run_layer(pm),
            Self::Fedora(pm) => run_layer(pm),
        }
    }
}

impl std::str::FromStr for Distro {
    type Err = DecodingError;

    /// The same as `Distro::from_str`.
    fn from_str(s: &str) -> (found: Result<Self, Self::Err>) {
        Distro::from_str(s)
    }
}

/// Resolving looks at a name only through its lowercased form: two names
/// that differ in nothing but the case of their letters resolve alike.
pub proof fn lemma_resolve_ignores_case(a: Seq<char>, b: Seq<char>)
    requires
        lowercased(a) == lowercased(b),
    ensures
        Distro::resolve(a) == Distro::resolve(b),
{
}

/// A name resolves to a distribution exactly if its lowercased form is that
/// distribution's canonical name.
pub proof fn lemma_resolve_by_canonical_name(name: Seq<char>, distro: Distro)
    ensures
        Distro::resolve(name) == Some(distro) <==> lowercased(name) == distro.canonical_name(),
{
    lemma_names_differ();
}

/// Every supported distribution is found under its canonical name.
pub proof fn lemma_resolve_total(distro: Distro)
    ensures
        Distro::resolve(distro.canonical_name()) == Some(distro),
{
    lemma_names_differ();
    let name = distro.canonical_name();
    assert(lowercased(name) =~= name);
}

/// The canonical names are five different words of small letters.
proof fn lemma_names_differ()
    ensures
        "ubuntu"@ == seq!['u', 'b', 'u', 'n', 't', 'u'],
        "debian"@ == seq!['d', 'e', 'b', 'i', 'a', 'n'],
        "archlinux"@ == seq!['a', 'r', 'c', 'h', 'l', 'i', 'n', 'u', 'x'],
        "opensuse"@ == seq!['o', 'p', 'e', 'n', 's', 'u', 's', 'e'],
        "fedora"@ == seq!['f', 'e', 'd', 'o', 'r', 'a'],
{
    reveal_strlit("ubuntu");
    reveal_strlit("debian");
    reveal_strlit("archlinux");
    reveal_strlit("opensuse");
    reveal_strlit("fedora");
    assert("ubuntu"@ =~= seq!['u', 'b', 'u', 'n', 't', 'u']);
    assert("debian"@ =~= seq!['d', 'e', 'b', 'i', 'a', 'n']);
    assert("archlinux"@ =~= seq!['a', 'r', 'c', 'h', 'l', 'i', 'n', 'u', 'x']);
    assert("opensuse"@ =~= seq!['o', 'p', 'e', 'n', 's', 'u', 's', 'e']);
    assert("fedora"@ =~= seq!['f', 'e', 'd', 'o', 'r', 'a']);
}

/// On Ubuntu the bring-up command line reads
/// `apt update -y && apt upgrade -y && apt install -y sudo`.
pub proof fn lemma_bring_up_ubuntu()
    ensures
        (Distro::Ubuntu(Apt {  })).bring_up()
            == "apt update -y && apt upgrade -y && apt install -y sudo"@,
{
    reveal_strlit("apt");
    reveal_strlit("update");
    reveal_strlit("upgrade");
    reveal_strlit("install");
    reveal_strlit("-y");
    reveal_strlit("sudo");
    reveal_strlit(" ");
    reveal_strlit(" && ");
    reveal_strlit("apt update -y && apt upgrade -y && apt install -y sudo");
    reveal_with_fuel(join, 4);
    let apt = Apt {  };
    let install = apt.install_head() + seq!["sudo"@];
    assert(install.len() == 4);
    assert(join(apt.update_tokens(), " "@) =~= "apt"@ + " "@ + "update"@ + " "@ + "-y"@);
    assert(join(apt.upgrade_tokens(), " "@) =~= "apt"@ + " "@ + "upgrade"@ + " "@ + "-y"@);
    assert(join(install, " "@) =~= "apt"@ + " "@ + "install"@ + " "@ + "-y"@ + " "@ + "sudo"@);
    assert(Distro::Ubuntu(apt).bring_up()
        =~= "apt update -y && apt upgrade -y && apt install -y sudo"@);
}

/// Whatever the distribution, installing `sudo` names the package manager
/// first and `sudo` last.
pub proof fn lemma_install_sudo(distro: Distro)
    ensures
        distro.install_tokens(seq!["sudo"@]).first() == distro.program(),
        distro.install_tokens(seq!["sudo"@]).last() == "sudo"@,
{
}

/// Whether `word` is written with ASCII letters and hyphens alone, and with
/// one of them at least: nothing in it means anything to a shell.
pub open spec fn is_plain(word: Seq<char>) -> bool {
    &&& word.len() > 0
    &&& forall|i: int|
        0 <= i < word.len() ==> {
            let c = #[trigger] word[i];
            'a' <= c <= 'z' || 'A' <= c <= 'Z' || c == '-'
        }
}

/// Whether every word of `words` is plain.
pub open spec fn all_plain(words: Seq<Seq<char>>) -> bool {
    forall|i: int| 0 <= i < words.len() ==> is_plain(#[trigger] words[i])
}

/// Whatever the distribution, the words of its own that its commands are
/// made of are plain: no space, quote or operator of a shell stands in them.
pub proof fn lemma_commands_are_plain(distro: Distro)
    ensures
        all_plain(distro.update_tokens()),
        all_plain(distro.upgrade_tokens()),
        all_plain(distro.install_tokens(Seq::empty())),
{
    reveal_strlit("apt");
    reveal_strlit("update");
    reveal_strlit("upgrade");
    reveal_strlit("install");
    reveal_strlit("-y");
    reveal_strlit("pacman");
    reveal_strlit("-Syy");
    reveal_strlit("-Su");
    reveal_strlit("-S");
    reveal_strlit("--noconfirm");
    reveal_strlit("zypper");
    reveal_strlit("refresh");
    reveal_strlit("--non-interactive");
    reveal_strlit("dnf");
    reveal_strlit("check-update");
    assert(is_plain("apt"@));
    assert(is_plain("update"@));
    assert(is_plain("upgrade"@));
    assert(is_plain("install"@));
    assert(is_plain("-y"@));
    assert(is_plain("pacman"@));
    assert(is_plain("-Syy"@));
    assert(is_plain("-Su"@));
    assert(is_plain("-S"@));
    assert(is_plain("--noconfirm"@));
    assert(is_plain("zypper"@));
    assert(is_plain("refresh"@));
    assert(is_plain("--non-interactive"@));
    assert(is_plain("dnf"@));
    assert(is_plain("check-update"@));
}

} // verus!
