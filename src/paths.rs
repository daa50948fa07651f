//! Where the interpreter may be installed, and the confinement of the
//! progress file to its project. Paths are lists of components here.
use vstd::prelude::*;
use vstd::string::*;
use crate::launch::views_of;
use crate::text::same_text;
use crate::signal::{is_blank, blank};

verus! {

/// The installation directories, under the user's home, that may hold a
/// conda distribution, in the order in which they are tried.
pub open spec fn conda_bases() -> Seq<Seq<char>> {
    seq![
        "Miniconda3"@,
        "miniconda3"@,
        "Anaconda3"@,
        "anaconda3"@,
        "Mambaforge"@,
        "mambaforge"@,
        "Miniforge3"@,
        "miniforge3"@,
    ]
}

/// The environments tried within each installation, in order.
pub open spec fn conda_envs() -> Seq<Seq<char>> {
    seq!["moldockpipe"@, "molDockPipe"@, "base"@]
}

/// The interpreter inside the environment `env` of installation `base` under
/// the home directory `home`.
pub open spec fn env_interpreter(home: Seq<char>, base: Seq<char>, env: Seq<char>) -> Seq<Seq<char>> {
    seq![home, base, "envs"@, env, "python.exe"@]
}

fn base_name(b: usize) -> (r: &'static str)
    requires
        b < 8,
    ensures
        r@ == conda_bases()[b as int],
{
    if b == 0 {
        "Miniconda3"
    } else if b == 1 {
        "miniconda3"
    } else if b == 2 {
        "Anaconda3"
    } else if b == 3 {
        "anaconda3"
    } else if b == 4 {
        "Mambaforge"
    } else if b == 5 {
        "mambaforge"
    } else if b == 6 {
        "Miniforge3"
    } else {
        "miniforge3"
    }
}

fn env_name(e: usize) -> (r: &'static str)
    requires
        e < 3,
    ensures
        r@ == conda_envs()[e as int],
{
    if e == 0 {
        "moldockpipe"
    } else if e == 1 {
        "molDockPipe"
    } else {
        "base"
    }
}

/// The places where an interpreter is looked for, in order, each as a list
/// of path components: the active conda environment's, where one is active;
/// then, where the home directory is known, each environment of each
/// installation under it.
pub fn python_candidates(conda_prefix: Option<&str>, home: Option<&str>) -> (r: Vec<Vec<String>>)
    ensures
        ({
            let first: int = if conda_prefix is Some {
                1
            } else {
                0
            };
            &&& r@.len() == first + if home is Some {
                24int
            } else {
                0
            }
            &&& conda_prefix matches Some(p) ==> views_of(r@[0]@) == seq![p@, "python.exe"@]
            &&& home matches Some(h) ==> forall|b: int, e: int|
                0 <= b < 8 && 0 <= e < 3 ==> views_of(#[trigger] r@[first + 3 * b + e]@)
                    == env_interpreter(h@, conda_bases()[b], conda_envs()[e])
        }),
{
    let mut out: Vec<Vec<String>> = Vec::new();
    match conda_prefix {
        Some(p) => {
            let c = vec![String::from_str(p), String::from_str("python.exe")];
            assert(views_of(c@) =~= seq![p@, "python.exe"@]);
            out.push(c);
        },
        None => {},
    }
    let ghost first = out@.len() as int;
    match home {
        Some(h) => {
            let mut b: usize = 0;
            while b < 8
                invariant
                    b <= 8,
                    out@.len() == first + 3 * b,
                    first == if conda_prefix is Some {
                        1int
                    } else {
                        0
                    },
                    conda_prefix matches Some(p) ==> views_of(out@[0]@) == seq![p@, "python.exe"@],
                    forall|bb: int, e: int|
                        0 <= bb < b && 0 <= e < 3 ==> views_of(#[trigger] out@[first + 3 * bb + e]@)
                            == env_interpreter(h@, conda_bases()[bb], conda_envs()[e]),
                decreases 8 - b,
            {
                let mut e: usize = 0;
                while e < 3
                    invariant
                        b < 8,
                        e <= 3,
                        out@.len() == first + 3 * b + e,
                        first == if conda_prefix is Some {
                            1int
                        } else {
                            0
                        },
                        conda_prefix matches Some(p) ==> views_of(out@[0]@) == seq![p@, "python.exe"@],
                        forall|bb: int, ee: int|
                            0 <= bb < 8 && 0 <= ee < 3 && (bb < b || (bb == b && ee < e))
                                ==> views_of(#[trigger] out@[first + 3 * bb + ee]@)
                                == env_interpreter(h@, conda_bases()[bb], conda_envs()[ee]),
                    decreases 3 - e,
                {
                    let c = vec![
                        String::from_str(h),
                        String::from_str(base_name(b)),
                        String::from_str("envs"),
                        String::from_str(env_name(e)),
                        String::from_str("python.exe"),
                    ];
                    assert(views_of(c@) =~= env_interpreter(
                        h@,
                        conda_bases()[b as int],
                        conda_envs()[e as int],
                    ));
                    out.push(c);
                    e = e + 1;
                }
                b = b + 1;
            }
        },
        None => {},
    }
    out
}

/// The family of operating system that the application runs on.
#[derive(Clone, Copy, Debug, PartialEq, Eq, Structural)]
pub enum Platform {
    Windows,
    MacOs,
    Other,
}

/// Why a path cannot be shown in the file browser.
#[derive(Clone, Copy, Debug, PartialEq, Eq, Structural)]
pub enum OpenError {
    /// The path is blank.
    NoPath,
}

/// The program that shows `target` in the file browser, and its arguments:
/// on Windows the explorer, which selects a file within its folder; on macOS
/// `open`; elsewhere `xdg-open`.
pub open spec fn opener_of(platform: Platform, is_file: bool, target: Seq<char>) -> (
    Seq<char>,
    Seq<Seq<char>>,
) {
    match platform {
        Platform::Windows => if is_file {
            ("explorer"@, seq!["/select,"@, target])
        } else {
            ("explorer"@, seq![target])
        },
        Platform::MacOs => ("open"@, seq![target]),
        Platform::Other => ("xdg-open"@, seq![target]),
    }
}

/// Refuses a blank path; any other is passed on to be looked up.
pub fn check_open_path(path: &str) -> (r: Result<(), OpenError>)
    ensures
        r is Err <==> is_blank(path@),
{
    if blank(path) {
        Err(OpenError::NoPath)
    } else {
        Ok(())
    }
}

/// The command that shows the resolved path `target` in the file browser.
pub fn opener_command(platform: Platform, is_file: bool, target: &str) -> (r: (String, Vec<String>))
    ensures
        (r.0@, views_of(r.1@)) == opener_of(platform, is_file, target@),
{
    let t = String::from_str(target);
    let r = match platform {
        Platform::Windows => {
            if is_file {
                (String::from_str("explorer"), vec![String::from_str("/select,"), t])
            } else {
                (String::from_str("explorer"), vec![t])
            }
        },
        Platform::MacOs => (String::from_str("open"), vec![t]),
        Platform::Other => (String::from_str("xdg-open"), vec![t]),
    };
    assert(views_of(r.1@) =~= opener_of(platform, is_file, target@).1);
    r
}

/// Whether the components `root` begin the components `path`: `path` lies
/// within `root`.
pub fn starts_with_components(path: &Vec<String>, root: &Vec<String>) -> (r: bool)
    ensures
        r == (root@.len() <= path@.len() && views_of(root@) == views_of(path@).subrange(
            0,
            root@.len() as int,
        )),
{
    if root.len() > path.len() {
        return false;
    }
    let mut i: usize = 0;
    while i < root.len()
        invariant
            root@.len() <= path@.len(),
            i <= root@.len(),
            forall|k: int| 0 <= k < i ==> (#[trigger] root@[k])@ == path@[k]@,
        decreases root@.len() - i,
    {
        if !same_text(root[i].as_str(), path[i].as_str()) {
            assert(views_of(root@)[i as int] != views_of(path@).subrange(0, root@.len() as int)[i as int]);
            return false;
        }
        i = i + 1;
    }
    assert(views_of(root@) =~= views_of(path@).subrange(0, root@.len() as int));
    true
}

/// The progress file of the project at `root`, as components.
pub fn progress_file(root: &Vec<String>) -> (r: Vec<String>)
    ensures
        views_of(r@) == views_of(root@) + seq!["state"@, "progress.json"@],
{
    let mut out: Vec<String> = Vec::new();
    let mut i: usize = 0;
    while i < root.len()
        invariant
            i <= root@.len(),
            views_of(out@) == views_of(root@).subrange(0, i as int),
        decreases root@.len() - i,
    {
        let ghost before = out@;
        out.push(root[i].clone());
        assert(views_of(out@) =~= views_of(before).push(root@[i as int]@));
        assert(views_of(out@) =~= views_of(root@).subrange(0, i + 1));
        i = i + 1;
    }
    assert(views_of(root@).subrange(0, root@.len() as int) =~= views_of(root@));
    let ghost before = out@;
    out.push(String::from_str("state"));
    assert(views_of(out@) =~= views_of(before).push("state"@));
    let ghost middle = out@;
    out.push(String::from_str("progress.json"));
    assert(views_of(out@) =~= views_of(middle).push("progress.json"@));
    assert(views_of(out@) =~= views_of(root@) + seq!["state"@, "progress.json"@]);
    out
}

} // verus!
