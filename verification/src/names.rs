//! Package names and listing kinds.

use vstd::prelude::*;
use crate::text::{chars_of, views};

verus! {

/// A character allowed in a package name: an ASCII letter or digit, or one
/// of `-`, `.`, `_`, `+`, `@`.
pub open spec fn pkg_char(c: char) -> bool {
    ||| 'a' <= c <= 'z'
    ||| 'A' <= c <= 'Z'
    ||| '0' <= c <= '9'
    ||| c == '-'
    ||| c == '.'
    ||| c == '_'
    ||| c == '+'
    ||| c == '@'
}

/// A package name: not empty, made of allowed characters only.
pub open spec fn is_valid_pkg(s: Seq<char>) -> bool {
    s.len() > 0 && forall|i: int| 0 <= i < s.len() ==> pkg_char(#[trigger] s[i])
}

/// Whether `s` is an acceptable package name.
pub fn valid_pkg(s: &str) -> (b: bool)
    ensures
        b == is_valid_pkg(s@),
{
    let v = chars_of(s);
    if v.len() == 0 {
        return false;
    }
    let mut i: usize = 0;
    while i < v.len()
        invariant
            i <= v.len(),
            v@ == s@,
            forall|k: int| 0 <= k < i ==> pkg_char(#[trigger] v@[k]),
        decreases v.len() - i,
    {
        let c = v[i];
        let ok = ('a' <= c && c <= 'z') || ('A' <= c && c <= 'Z') || ('0' <= c && c <= '9') || c
            == '-' || c == '.' || c == '_' || c == '+' || c == '@';
        if !ok {
            assert(!pkg_char(v@[i as int]));
            return false;
        }
        i += 1;
    }
    true
}

/// The message of the error for an invalid package name.
pub open spec fn invalid_name_message(p: Seq<char>) -> Seq<char> {
    "Invalid package name: "@ + p
}

/// All names are valid, or the error names the first invalid one.
pub open spec fn validation_result(ps: Seq<Seq<char>>, r: Result<(), Seq<char>>) -> bool {
    match r {
        Ok(_) => forall|i: int| 0 <= i < ps.len() ==> is_valid_pkg(#[trigger] ps[i]),
        Err(m) => exists|k: int|
            0 <= k < ps.len() && !is_valid_pkg(#[trigger] ps[k]) && (forall|i: int|
                0 <= i < k ==> is_valid_pkg(#[trigger] ps[i])) && m == invalid_name_message(ps[k]),
    }
}

/// Checks every requested name, in order; the first invalid one is the error
/// `Invalid package name: <name>`.
pub fn validate_packages(pkgs: &Vec<String>) -> (r: Result<(), String>)
    ensures
        validation_result(
            views(pkgs@),
            match r {
                Ok(_) => Ok(()),
                Err(m) => Err(m@),
            },
        ),
{
    let mut i: usize = 0;
    while i < pkgs.len()
        invariant
            i <= pkgs.len(),
            forall|k: int| 0 <= k < i ==> is_valid_pkg(#[trigger] views(pkgs@)[k]),
        decreases pkgs.len() - i,
    {
        if !valid_pkg(pkgs[i].as_str()) {
            let mut m = String::from_str("Invalid package name: ");
            m.append(pkgs[i].as_str());
            assert(!is_valid_pkg(views(pkgs@)[i as int]));
            return Err(m);
        }
        assert(is_valid_pkg(views(pkgs@)[i as int]));
        i += 1;
    }
    Ok(())
}

/// Which packages `atha list` shows.
#[derive(Clone, Copy, PartialEq, Eq, Structural, Debug)]
pub enum ListType {
    /// Every installed package.
    Installed,
    /// Explicitly installed packages.
    Explicit,
    /// Packages from outside the sync databases (AUR or local builds).
    Aur,
    /// Every package of every repository.
    All,
}

/// The name of a listing kind.
pub open spec fn list_label(k: ListType) -> Seq<char> {
    match k {
        ListType::Installed => "installed"@,
        ListType::Explicit => "explicit"@,
        ListType::Aur => "aur"@,
        ListType::All => "all"@,
    }
}

/// The pacman query flag of a listing kind.
pub open spec fn list_flag_spec(k: ListType) -> Seq<char> {
    match k {
        ListType::Installed => "-Q"@,
        ListType::Explicit => "-Qe"@,
        ListType::Aur => "-Qm"@,
        ListType::All => "-Sl"@,
    }
}

impl ListType {
    /// The name of the listing kind, as written on the command line.
    pub fn label(&self) -> (s: &'static str)
        ensures
            s@ == list_label(*self),
    {
        match self {
            ListType::Installed => "installed",
            ListType::Explicit => "explicit",
            ListType::Aur => "aur",
            ListType::All => "all",
        }
    }

    /// The pacman flag that lists packages of this kind.
    pub fn pacman_flag(&self) -> (s: &'static str)
        ensures
            s@ == list_flag_spec(*self),
    {
        match self {
            ListType::Installed => "-Q",
            ListType::Explicit => "-Qe",
            ListType::Aur => "-Qm",
            ListType::All => "-Sl",
        }
    }

    /// Only the repository listing is cut to a limit.
    pub fn paginated(&self) -> (b: bool)
        ensures
            b == (*self == ListType::All),
    {
        match self {
            ListType::All => true,
            _ => false,
        }
    }
}

} // verus!
