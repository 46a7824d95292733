//! Package-manager dialects: the commands that refresh the package index,
//! upgrade what is installed, and install further packages.

use crate::text::tokens;
use vstd::prelude::*;

verus! {

/// What a package manager is asked to do, as command words: the program
/// first, then its flags, then its operands.
pub trait PackageManager {
    /// The program that every command of this dialect runs.
    spec fn program(&self) -> Seq<char>;

    /// The command that refreshes the package index.
    spec fn update_tokens(&self) -> Seq<Seq<char>>;

    /// The command that upgrades the installed packages.
    spec fn upgrade_tokens(&self) -> Seq<Seq<char>>;

    /// The words of an installation that stand before the packages.
    spec fn install_head(&self) -> Seq<Seq<char>>;

    /// Every command of the dialect starts with its program.
    proof fn lemma_program_first(&self)
        ensures
            self.update_tokens().len() > 0,
            self.update_tokens()[0] == self.program(),
            self.upgrade_tokens().len() > 0,
            self.upgrade_tokens()[0] == self.program(),
            self.install_head().len() > 0,
            self.install_head()[0] == self.program(),
    ;

    /// The command that installs `packages`: the dialect's own words, then
    /// every package as given, in the order given.
    fn install<'a>(&'a self, packages: &[&'a str]) -> (command: Vec<&'a str>)
        ensures
            tokens(command@) == self.install_head() + tokens(packages@),
    ;

    /// The command that refreshes the package index.
    fn update(&self) -> (command: Vec<&str>)
        ensures
            tokens(command@) == self.update_tokens(),
    ;

    /// The command that upgrades the installed packages.
    fn upgrade(&self) -> (command: Vec<&str>)
        ensures
            tokens(command@) == self.upgrade_tokens(),
    ;
}

/// The words of the command with which `manager` installs `packages`.
pub open spec fn install_tokens<P: PackageManager>(manager: P, packages: Seq<Seq<char>>) -> Seq<
    Seq<char>,
> {
    manager.install_head() + packages
}

/// An installation names the program first and then, after the dialect's own
/// words, exactly the packages asked for: none dropped, repeated or moved.
pub proof fn lemma_install_keeps_packages<P: PackageManager>(manager: P, packages: Seq<Seq<char>>)
    ensures
        install_tokens(manager, packages)[0] == manager.program(),
        install_tokens(manager, packages).len() == manager.install_head().len() + packages.len(),
        install_tokens(manager, packages).skip(manager.install_head().len() as int) == packages,
        packages.len() > 0 ==> install_tokens(manager, packages).last() == packages.last(),
{
    manager.lemma_program_first();
    assert(install_tokens(manager, packages).skip(manager.install_head().len() as int)
        =~= packages);
}

/// `head` followed by `packages`.
fn with_packages<'a>(head: Vec<&'a str>, packages: &[&'a str]) -> (command: Vec<&'a str>)
    ensures
        command@ == head@ + packages@,
        tokens(command@) == tokens(head@) + tokens(packages@),
{
    let mut command = head;
    let mut i: usize = 0;
    while i < packages.len()
        invariant
            i <= packages.len(),
            command@ == head@ + packages@.take(i as int),
        decreases packages.len() - i,
    {
        command.push(packages[i]);
        assert(command@ =~= head@ + packages@.take(i + 1));
        i += 1;
    }
    assert(packages@.take(i as int) =~= packages@);
    assert(tokens(command@) =~= tokens(head@) + tokens(packages@));
    command
}

/// The dialect of apt, as on Debian and Ubuntu.
#[derive(Debug, Clone, Copy, PartialEq, Eq, Structural)]
pub struct Apt {}

impl Default for Apt {
    fn default() -> (manager: Self)
        ensures
            manager == (Apt {  }),
    {
        Apt {  }
    }
}

impl PackageManager for Apt {
    open spec fn program(&self) -> Seq<char> {
        "apt"@
    }

    open spec fn update_tokens(&self) -> Seq<Seq<char>> {
        seq!["apt"@, "update"@, "-y"@]
    }

    open spec fn upgrade_tokens(&self) -> Seq<Seq<char>> {
        seq!["apt"@, "upgrade"@, "-y"@]
    }

    open spec fn install_head(&self) -> Seq<Seq<char>> {
        seq!["apt"@, "install"@, "-y"@]
    }

    proof fn lemma_program_first(&self) {
    }

    fn install<'a>(&'a self, packages: &[&'a str]) -> (command: Vec<&'a str>) {
        let head = vec!["apt", "install", "-y"];
        assert(tokens(head@) =~= self.install_head());
        with_packages(head, packages)
    }

    fn update(&self) -> (command: Vec<&str>) {
        let command = vec!["apt", "update", "-y"];
        assert(tokens(command@) =~= self.update_tokens());
        command
    }

    fn upgrade(&self) -> (command: Vec<&str>) {
        let command = vec!["apt", "upgrade", "-y"];
        assert(tokens(command@) =~= self.upgrade_tokens());
        command
    }
}

/// The dialect of pacman, as on Arch Linux.
#[derive(Debug, Clone, Copy, PartialEq, Eq, Structural)]
pub struct Pacman {}

impl Default for Pacman {
    fn default() -> (manager: Self)
        ensures
            manager == (Pacman {  }),
    {
        Pacman {  }
    }
}

impl PackageManager for Pacman {
    open spec fn program(&self) -> Seq<char> {
        "pacman"@
    }

    open spec fn update_tokens(&self) -> Seq<Seq<char>> {
        seq!["pacman"@, "-Syy"@, "--noconfirm"@]
    }

    open spec fn upgrade_tokens(&self) -> Seq<Seq<char>> {
        seq!["pacman"@, "-Su"@, "--noconfirm"@]
    }

    open spec fn install_head(&self) -> Seq<Seq<char>> {
        seq!["pacman"@, "-S"@, "--noconfirm"@]
    }

    proof fn lemma_program_first(&self) {
    }

    fn install<'a>(&'a self, packages: &[&'a str]) -> (command: Vec<&'a str>) {
        let head = vec!["pacman", "-S", "--noconfirm"];
        assert(tokens(head@) =~= self.install_head());
        with_packages(head, packages)
    }

    fn update(&self) -> (command: Vec<&str>) {
        let command = vec!["pacman", "-Syy", "--noconfirm"];
        assert(tokens(command@) =~= self.update_tokens());
        command
    }

    fn upgrade(&self) -> (command: Vec<&str>) {
        let command = vec!["pacman", "-Su", "--noconfirm"];
        assert(tokens(command@) =~= self.upgrade_tokens());
        command
    }
}

/// The dialect of zypper, as on openSUSE.
#[derive(Debug, Clone, Copy, PartialEq, Eq, Structural)]
pub struct Zypper {}

impl Default for Zypper {
    fn default() -> (manager: Self)
        ensures
            manager == (Zypper {  }),
    {
        Zypper {  }
    }
}

impl PackageManager for Zypper {
    open spec fn program(&self) -> Seq<char> {
        "zypper"@
    }

    open spec fn update_tokens(&self) -> Seq<Seq<char>> {
        seq!["zypper"@, "refresh"@, "--non-interactive"@]
    }

    open spec fn upgrade_tokens(&self) -> Seq<Seq<char>> {
        seq!["zypper"@, "update"@, "--non-interactive"@]
    }

    open spec fn install_head(&self) -> Seq<Seq<char>> {
        seq!["zypper"@, "install"@, "--non-interactive"@]
    }

    proof fn lemma_program_first(&self) {
    }

    fn install<'a>(&'a self, packages: &[&'a str]) -> (command: Vec<&'a str>) {
        let head = vec!["zypper", "install", "--non-interactive"];
        assert(tokens(head@) =~= self.install_head());
        with_packages(head, packages)
    }

    fn update(&self) -> (command: Vec<&str>) {
        let command = vec!["zypper", "refresh", "--non-interactive"];
        assert(tokens(command@) =~= self.update_tokens());
        command
    }

    fn upgrade(&self) -> (command: Vec<&str>) {
        let command = vec!["zypper", "update", "--non-interactive"];
        assert(tokens(command@) =~= self.upgrade_tokens());
        command
    }
}

/// The dialect of dnf, as on Fedora.
#[derive(Debug, Clone, Copy, PartialEq, Eq, Structural)]
pub struct Dnf {}

impl Default for Dnf {
    fn default() -> (manager: Self)
        ensures
            manager == (Dnf {  }),
    {
        Dnf {  }
    }
}

impl PackageManager for Dnf {
    open spec fn program(&self) -> Seq<char> {
        "dnf"@
    }

    open spec fn update_tokens(&self) -> Seq<Seq<char>> {
        seq!["dnf"@, "check-update"@, "-y"@]
    }

    open spec fn upgrade_tokens(&self) -> Seq<Seq<char>> {
        seq!["dnf"@, "upgrade"@, "-y"@]
    }

    open spec fn install_head(&self) -> Seq<Seq<char>> {
        seq!["dnf"@, "install"@, "-y"@]
    }

    proof fn lemma_program_first(&self) {
    }

    fn install<'a>(&'a self, packages: &[&'a str]) -> (command: Vec<&'a str>) {
        let head = vec!["dnf", "install", "-y"];
        assert(tokens(head@) =~= self.install_head());
        with_packages(head, packages)
    }

    fn update(&self) -> (command: Vec<&str>) {
        let command = vec!["dnf", "check-update", "-y"];
        assert(tokens(command@) =~= self.update_tokens());
        command
    }

    fn upgrade(&self) -> (command: Vec<&str>) {
        let command = vec!["dnf", "upgrade", "-y"];
        assert(tokens(command@) =~= self.upgrade_tokens());
        command
    }
}

} // verus!
