//! Where the program keeps its state, log, and build directories, and where
//! it looks for commands.

use vstd::prelude::*;
use crate::text::{
    push_char, chars_of, split_char, split_by, eq_char, views, decimal, decimal_string,
};
use crate::report::push_string;

verus! {

/// `base` joined with `rel` the way `Path::join` does on Unix: an absolute
/// `rel` replaces `base`; otherwise a `/` separates them unless `base` is
/// empty or already ends with one.
pub open spec fn join_path(base: Seq<char>, rel: Seq<char>) -> Seq<char> {
    if rel.len() > 0 && rel[0] == '/' {
        rel
    } else if base.len() == 0 {
        rel
    } else if base.last() == '/' {
        base + rel
    } else {
        base + seq!['/'] + rel
    }
}

/// `base.join(rel)`.
pub fn join(base: &str, rel: &str) -> (r: String)
    ensures
        r@ == join_path(base@, rel@),
{
    let b = chars_of(base);
    let q = chars_of(rel);
    if q.len() > 0 && q[0] == '/' {
        String::from_str(rel)
    } else if b.len() == 0 {
        String::from_str(rel)
    } else if b[b.len() - 1] == '/' {
        let mut s = String::from_str(base);
        s.append(rel);
        s
    } else {
        let mut s = String::from_str(base);
        push_char(&mut s, '/');
        s.append(rel);
        s
    }
}

/// The state directory: `$ATHA_STATE_DIR`, else `$XDG_STATE_HOME/atha`, else
/// `~/.local/state/atha`, else `.atha`.
pub open spec fn state_dir_spec(
    atha_state_dir: Option<Seq<char>>,
    xdg_state_home: Option<Seq<char>>,
    home: Option<Seq<char>>,
) -> Seq<char> {
    match atha_state_dir {
        Some(d) => d,
        None => match xdg_state_home {
            Some(x) => join_path(x, "atha"@),
            None => match home {
                Some(h) => join_path(h, ".local/state/atha"@),
                None => ".atha"@,
            },
        },
    }
}

/// The view of an optional string.
pub open spec fn opt_view(o: Option<String>) -> Option<Seq<char>> {
    match o {
        Some(s) => Some(s@),
        None => None,
    }
}

/// The directory that holds the history file.
pub fn state_dir(
    atha_state_dir: &Option<String>,
    xdg_state_home: &Option<String>,
    home: &Option<String>,
) -> (r: String)
    ensures
        r@ == state_dir_spec(opt_view(*atha_state_dir), opt_view(*xdg_state_home), opt_view(*home)),
{
    match atha_state_dir {
        Some(d) => String::from_str(d.as_str()),
        None => match xdg_state_home {
            Some(x) => join(x.as_str(), "atha"),
            None => match home {
                Some(h) => join(h.as_str(), ".local/state/atha"),
                None => String::from_str(".atha"),
            },
        },
    }
}

/// The history file: `history.log` in the state directory.
pub fn history_path(
    atha_state_dir: &Option<String>,
    xdg_state_home: &Option<String>,
    home: &Option<String>,
) -> (r: String)
    ensures
        r@ == join_path(
            state_dir_spec(opt_view(*atha_state_dir), opt_view(*xdg_state_home), opt_view(*home)),
            "history.log"@,
        ),
{
    let d = state_dir(atha_state_dir, xdg_state_home, home);
    join(d.as_str(), "history.log")
}

/// The log file: `$ATHA_LOG_FILE`, else `/tmp/atha.log`.
pub fn log_path(atha_log_file: &Option<String>) -> (r: String)
    ensures
        r@ == match opt_view(*atha_log_file) {
            Some(f) => f,
            None => "/tmp/atha.log"@,
        },
{
    match atha_log_file {
        Some(f) => String::from_str(f.as_str()),
        None => String::from_str("/tmp/atha.log"),
    }
}

/// The log file used when the first one cannot be opened:
/// `atha/atha.log` in the cache directory (or in `.`).
pub fn fallback_log_path(cache_dir: &Option<String>) -> (r: String)
    ensures
        r@ == join_path(
            match opt_view(*cache_dir) {
                Some(c) => c,
                None => "."@,
            },
            "atha/atha.log"@,
        ),
{
    match cache_dir {
        Some(c) => join(c.as_str(), "atha/atha.log"),
        None => join(".", "atha/atha.log"),
    }
}

/// The program's own cache directory: `atha` in the cache directory (or in `.`).
pub fn app_cache_dir(cache_dir: &Option<String>) -> (r: String)
    ensures
        r@ == join_path(
            match opt_view(*cache_dir) {
                Some(c) => c,
                None => "."@,
            },
            "atha"@,
        ),
{
    match cache_dir {
        Some(c) => join(c.as_str(), "atha"),
        None => join(".", "atha"),
    }
}

/// Where AUR packages are built: `$ATHA_BUILD_DIR`, else `atha/build` in the
/// cache directory, else `.atha/build`.
pub fn build_root(atha_build_dir: &Option<String>, cache_dir: &Option<String>) -> (r: String)
    ensures
        r@ == match opt_view(*atha_build_dir) {
            Some(d) => d,
            None => match opt_view(*cache_dir) {
                Some(c) => join_path(c, "atha/build"@),
                None => ".atha/build"@,
            },
        },
{
    match atha_build_dir {
        Some(d) => String::from_str(d.as_str()),
        None => match cache_dir {
            Some(c) => join(c.as_str(), "atha/build"),
            None => String::from_str(".atha/build"),
        },
    }
}

/// The build directory of one AUR package: `<pkg>-<pid>` in the build root.
pub fn build_dir(root: &str, pkg: &str, pid: u32) -> (r: String)
    ensures
        r@ == join_path(root@, pkg@ + "-"@ + decimal(pid as nat)),
{
    let mut leaf = String::from_str(pkg);
    leaf.append("-");
    let n = decimal_string(pid as u128);
    leaf.append(n.as_str());
    join(root, leaf.as_str())
}

/// The places a command is looked for: each directory of `$PATH` (split at
/// `:`) joined with the command's name; none when `$PATH` is unset.
pub open spec fn command_candidates_spec(path_var: Option<Seq<char>>, name: Seq<char>) -> Seq<
    Seq<char>,
> {
    match path_var {
        Some(p) => split_by(p, eq_char(':')).map_values(|d: Seq<char>| join_path(d, name)),
        None => Seq::empty(),
    }
}

/// The files to test, in order, when looking for the command `name`.
pub fn command_candidates(path_var: &Option<String>, name: &str) -> (r: Vec<String>)
    ensures
        views(r@) == command_candidates_spec(opt_view(*path_var), name@),
{
    let mut out: Vec<String> = Vec::new();
    match path_var {
        None => {
            assert(views(out@) =~= Seq::<Seq<char>>::empty());
            out
        },
        Some(p) => {
            let dirs = split_char(p.as_str(), ':');
            let mut i: usize = 0;
            while i < dirs.len()
                invariant
                    i <= dirs.len(),
                    views(dirs@) == split_by(p@, eq_char(':')),
                    views(out@) == views(dirs@).take(i as int).map_values(
                        |d: Seq<char>| join_path(d, name@),
                    ),
                decreases dirs.len() - i,
            {
                let c = join(dirs[i].as_str(), name);
                push_string(&mut out, c);
                i += 1;
                assert(views(out@) =~= views(dirs@).take(i as int).map_values(
                    |d: Seq<char>| join_path(d, name@),
                ));
            }
            assert(views(dirs@).take(dirs.len() as int) =~= views(dirs@));
            out
        },
    }
}

/// The message of the error for a command that is not installed.
pub open spec fn command_not_found(name: Seq<char>) -> Seq<char> {
    "Command not found: "@ + name
}

/// Succeeds when the command was found (at `location`), and fails with
/// `Command not found: <name>` otherwise.
pub fn require_cmd(name: &str, location: &Option<String>) -> (r: Result<(), String>)
    ensures
        location.is_some() <==> r.is_ok(),
        r matches Err(m) ==> m@ == command_not_found(name@),
{
    match location {
        Some(_) => Ok(()),
        None => {
            let mut m = String::from_str("Command not found: ");
            m.append(name);
            Err(m)
        },
    }
}

/// The git URL of an AUR package.
pub fn aur_repo_url(pkg: &str) -> (r: String)
    ensures
        r@ == "https://aur.archlinux.org/"@ + pkg@ + ".git"@,
{
    let mut s = String::from_str("https://aur.archlinux.org/");
    s.append(pkg);
    s.append(".git");
    s
}

/// The AUR search request for a term.
pub fn aur_search_url(term: &str) -> (r: String)
    ensures
        r@ == "https://aur.archlinux.org/rpc/v5/search/"@ + term@,
{
    let mut s = String::from_str("https://aur.archlinux.org/rpc/v5/search/");
    s.append(term);
    s
}

/// The AUR information request for a package.
pub fn aur_info_url(pkg: &str) -> (r: String)
    ensures
        r@ == "https://aur.archlinux.org/rpc/v5/info/"@ + pkg@,
{
    let mut s = String::from_str("https://aur.archlinux.org/rpc/v5/info/");
    s.append(pkg);
    s
}

/// The file created and removed to test that a directory is writable.
pub fn write_probe_name(pid: u32) -> (r: String)
    ensures
        r@ == ".atha_write_test_"@ + decimal(pid as nat),
{
    let mut s = String::from_str(".atha_write_test_");
    let n = decimal_string(pid as u128);
    s.append(n.as_str());
    s
}

} // verus!
