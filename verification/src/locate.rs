//! Where the sidecar binary is looked for, in order of preference.
//!
//! The bundled copy comes first (after an explicit override), then the copy
//! beside the app binary, then the places a developer build leaves it. A
//! candidate is a list of path components, joined by the caller.

use vstd::prelude::*;
use vstd::string::StringExecFns;
use crate::client::SidecarClient;

verus! {

/// The binary's file name.
pub open spec fn exe_name_of(windows: bool) -> Seq<char> {
    if windows {
        "handier-llm.exe"@
    } else {
        "handier-llm"@
    }
}

/// The executable suffix of the platform.
pub open spec fn exe_suffix_of(windows: bool) -> Seq<char> {
    if windows {
        ".exe"@
    } else {
        ""@
    }
}

/// The file name the staging directory gives the binary: it keeps the target
/// triple.
pub open spec fn staged_name_of(target_triple: Seq<char>, windows: bool) -> Seq<char> {
    "handier-llm-"@ + target_triple + exe_suffix_of(windows)
}

/// The two spellings of the binary inside `dir`, the plain name first.
pub open spec fn in_dir(dir: Option<Seq<char>>, exe: Seq<char>, staged: Seq<char>) -> Seq<Seq<Seq<char>>> {
    match dir {
        Some(d) => seq![seq![d, exe], seq![d, staged]],
        None => Seq::empty(),
    }
}

/// Where a developer build leaves the binary: the staging directories (staged
/// name first), then the crate's own target directory.
pub open spec fn developer_candidates(exe: Seq<char>, staged: Seq<char>) -> Seq<Seq<Seq<char>>> {
    seq![
        seq!["binaries"@, staged],
        seq!["binaries"@, exe],
        seq!["src-tauri/binaries"@, staged],
        seq!["src-tauri/binaries"@, exe],
        seq!["../src-tauri/binaries"@, staged],
        seq!["../src-tauri/binaries"@, exe],
        seq!["crates/handy-llm/target"@, "release"@, exe],
        seq!["crates/handy-llm/target"@, "debug"@, exe],
    ]
}

/// Every place the binary is looked for, in order: the override, the
/// resource directory, the app binary's directory, the developer locations.
pub open spec fn candidates_of(
    resource_dir: Option<Seq<char>>,
    exe_dir: Option<Seq<char>>,
    override_path: Option<Seq<char>>,
    target_triple: Seq<char>,
    windows: bool,
) -> Seq<Seq<Seq<char>>> {
    let exe = exe_name_of(windows);
    let staged = staged_name_of(target_triple, windows);
    let first = match override_path {
        Some(p) => seq![seq![p]],
        None => Seq::empty(),
    };
    first + in_dir(resource_dir, exe, staged) + in_dir(exe_dir, exe, staged)
        + developer_candidates(exe, staged)
}

/// The first candidate that is present.
pub open spec fn first_present(candidates: Seq<Seq<Seq<char>>>, present: Seq<bool>) -> Option<Seq<Seq<char>>>
    decreases candidates.len(),
{
    if candidates.len() == 0 || present.len() == 0 {
        None
    } else if present[0] {
        Some(candidates[0])
    } else {
        first_present(candidates.drop_first(), present.drop_first())
    }
}

/// An optional string as an optional view.
pub open spec fn opt_view(s: Option<&str>) -> Option<Seq<char>> {
    match s {
        Some(v) => Some(v@),
        None => None,
    }
}

/// A path of one component.
fn path1(a: &str) -> (res: Vec<String>)
    ensures
        res.deep_view() == seq![a@],
{
    let mut v: Vec<String> = Vec::new();
    v.push(String::from_str(a));
    proof {
        assert(v.deep_view() =~= seq![a@]);
    }
    v
}

/// A path of two components.
fn path2(a: &str, b: &str) -> (res: Vec<String>)
    ensures
        res.deep_view() == seq![a@, b@],
{
    let mut v: Vec<String> = Vec::new();
    v.push(String::from_str(a));
    v.push(String::from_str(b));
    proof {
        assert(v.deep_view() =~= seq![a@, b@]);
    }
    v
}

/// A path of three components.
fn path3(a: &str, b: &str, c: &str) -> (res: Vec<String>)
    ensures
        res.deep_view() == seq![a@, b@, c@],
{
    let mut v: Vec<String> = Vec::new();
    v.push(String::from_str(a));
    v.push(String::from_str(b));
    v.push(String::from_str(c));
    proof {
        assert(v.deep_view() =~= seq![a@, b@, c@]);
    }
    v
}

impl SidecarClient {
    /// The binary's file name on the platform.
    pub fn exe_name(windows: bool) -> (res: &'static str)
        ensures
            res@ == exe_name_of(windows),
    {
        if windows {
            "handier-llm.exe"
        } else {
            "handier-llm"
        }
    }

    /// Executable suffix for the platform.
    fn exe_suffix(windows: bool) -> (res: &'static str)
        ensures
            res@ == exe_suffix_of(windows),
    {
        if windows {
            ".exe"
        } else {
            ""
        }
    }

    /// The name the staging directory gives the binary.
    pub fn staged_name(target_triple: &str, windows: bool) -> (res: String)
        ensures
            res@ == staged_name_of(target_triple@, windows),
    {
        let mut name = String::from_str("handier-llm-");
        name.append(target_triple);
        name.append(Self::exe_suffix(windows));
        name
    }

    /// Every place the binary is looked for, in order of preference.
    /// `resource_dir` is the bundled resource directory, `exe_dir` the
    /// directory of the running app binary, `override_path` the explicit
    /// override, where each is known.
    pub fn binary_candidates(
        resource_dir: Option<&str>,
        exe_dir: Option<&str>,
        override_path: Option<&str>,
        target_triple: &str,
        windows: bool,
    ) -> (res: Vec<Vec<String>>)
        ensures
            res.deep_view() == candidates_of(
                opt_view(resource_dir),
                opt_view(exe_dir),
                opt_view(override_path),
                target_triple@,
                windows,
            ),
    {
        let exe = Self::exe_name(windows);
        let staged_owned = Self::staged_name(target_triple, windows);
        let staged = staged_owned.as_str();
        let ghost e = exe@;
        let ghost st = staged@;
        let mut out: Vec<Vec<String>> = Vec::new();
        match override_path {
            Some(p) => out.push(path1(p)),
            None => {},
        }
        let ghost first = out.deep_view();
        match resource_dir {
            Some(d) => {
                out.push(path2(d, exe));
                out.push(path2(d, staged));
            },
            None => {},
        }
        assert(out.deep_view() =~= first + in_dir(opt_view(resource_dir), e, st));
        let ghost second = out.deep_view();
        match exe_dir {
            Some(d) => {
                out.push(path2(d, exe));
                out.push(path2(d, staged));
            },
            None => {},
        }
        assert(out.deep_view() =~= second + in_dir(opt_view(exe_dir), e, st));
        let ghost third = out.deep_view();
        out.push(path2("binaries", staged));
        out.push(path2("binaries", exe));
        out.push(path2("src-tauri/binaries", staged));
        out.push(path2("src-tauri/binaries", exe));
        out.push(path2("../src-tauri/binaries", staged));
        out.push(path2("../src-tauri/binaries", exe));
        out.push(path3("crates/handy-llm/target", "release", exe));
        out.push(path3("crates/handy-llm/target", "debug", exe));
        assert(out.deep_view() =~= third + developer_candidates(e, st));
        out
    }

    /// The first candidate that is present (`present[i]` tells whether
    /// `candidates[i]` is a file), or none.
    pub fn find_binary(candidates: Vec<Vec<String>>, present: &Vec<bool>) -> (res: Option<Vec<String>>)
        ensures
            res.deep_view() == first_present(candidates.deep_view(), present@),
    {
        let ghost all = candidates.deep_view();
        let mut remaining = candidates;
        let mut i: usize = 0;
        assert(all.subrange(0, all.len() as int) =~= all);
        assert(present@.subrange(0, present@.len() as int) =~= present@);
        while i < remaining.len() && i < present.len()
            invariant
                remaining.deep_view() == all,
                all == candidates.deep_view(),
                all.len() == remaining@.len(),
                i <= remaining.len(),
                i <= present@.len(),
                first_present(all, present@) == first_present(
                    all.subrange(i as int, all.len() as int),
                    present@.subrange(i as int, present@.len() as int),
                ),
            decreases remaining.len() - i,
        {
            if present[i] {
                assert(all[i as int] == remaining@[i as int].deep_view());
                let found = remaining.remove(i);
                assert(found.deep_view() == all[i as int]);
                let ghost sc = all.subrange(i as int, all.len() as int);
                let ghost sp = present@.subrange(i as int, present@.len() as int);
                assert(sc[0] == all[i as int] && sp[0] == present@[i as int]);
                assert(first_present(sc, sp) == Some(all[i as int]));
                assert(Some(found).deep_view() == Some(all[i as int]));
                return Some(found);
            }
            assert(all.subrange(i as int, all.len() as int).drop_first() =~= all.subrange(
                i + 1,
                all.len() as int,
            ));
            assert(present@.subrange(i as int, present@.len() as int).drop_first() =~= present@.subrange(
                i + 1,
                present@.len() as int,
            ));
            i = i + 1;
        }
        assert(all.subrange(i as int, all.len() as int).len() == 0 || present@.subrange(
            i as int,
            present@.len() as int,
        ).len() == 0);
        None
    }
}

} // verus!
