use vstd::prelude::*;
use crate::docker::strs;
use crate::workspace::{join, join_spec};

verus! {

/// The name has an extension: a `.` after its first character.
pub open spec fn has_extension_spec(cmd: Seq<char>) -> bool {
    exists|i: int| 0 < i < cmd.len() && cmd[i] == '.'
}

/// The files that stand for `cmd` in one directory, in the order in which
/// they are tried: the name itself, then, for a name without an extension,
/// the name with each executable extension.
pub open spec fn dir_candidates(dir: Seq<char>, cmd: Seq<char>, exts: Seq<Seq<char>>) -> Seq<Seq<char>> {
    seq![join_spec(dir, cmd)] + if has_extension_spec(cmd) {
        Seq::empty()
    } else {
        exts.map_values(|e: Seq<char>| join_spec(dir, cmd + e))
    }
}

/// The files that stand for `cmd` over the search path, directory by directory.
pub open spec fn candidates_spec(dirs: Seq<Seq<char>>, cmd: Seq<char>, exts: Seq<Seq<char>>) -> Seq<Seq<char>>
    decreases dirs.len(),
{
    if dirs.len() == 0 {
        Seq::empty()
    } else {
        candidates_spec(dirs.drop_last(), cmd, exts) + dir_candidates(dirs.last(), cmd, exts)
    }
}

/// `r` is the first of `cands` that is among `files`, or `None` if none is.
pub open spec fn first_existing_spec(cands: Seq<Seq<char>>, files: Seq<Seq<char>>, r: Option<Seq<char>>) -> bool {
    match r {
        Some(c) => exists|i: int|
            0 <= i < cands.len() && cands[i] == c && files.contains(c)
                && forall|j: int| 0 <= j < i ==> !files.contains(#[trigger] cands[j]),
        None => forall|j: int| 0 <= j < cands.len() ==> !files.contains(#[trigger] cands[j]),
    }
}

/// Whether `cmd` has an extension.
pub fn has_extension(cmd: &str) -> (r: bool)
    ensures
        r == has_extension_spec(cmd@),
{
    let n = cmd.unicode_len();
    let mut i: usize = 1;
    while i < n
        invariant
            n == cmd@.len(),
            1 <= i,
            forall|k: int| 0 < k < i && k < n ==> cmd@[k] != '.',
        decreases n - i,
    {
        if cmd.get_char(i) == '.' {
            return true;
        }
        i = i + 1;
    }
    false
}

/// The files that stand for `cmd` over `dirs`, in the order in which they
/// are tried.
pub fn command_candidates(cmd: &str, dirs: &Vec<String>, exts: &Vec<String>) -> (r: Vec<String>)
    ensures
        strs(r@) == candidates_spec(strs(dirs@), cmd@, strs(exts@)),
{
    let with_ext = has_extension(cmd);
    let ghost d = strs(dirs@);
    let ghost e = strs(exts@);
    let mut r: Vec<String> = Vec::new();
    let mut i: usize = 0;
    while i < dirs.len()
        invariant
            d == strs(dirs@),
            e == strs(exts@),
            with_ext == has_extension_spec(cmd@),
            i <= dirs@.len(),
            strs(r@) == candidates_spec(d.subrange(0, i as int), cmd@, e),
        decreases dirs@.len() - i,
    {
        let ghost before = strs(r@);
        let mut c = dirs[i].clone();
        join(&mut c, cmd);
        r.push(c);
        assert(strs(r@) =~= before + seq![join_spec(d[i as int], cmd@)]);
        if !with_ext {
            let mut j: usize = 0;
            while j < exts.len()
                invariant
                    d == strs(dirs@),
                    e == strs(exts@),
                    i < dirs@.len(),
                    j <= exts@.len(),
                    strs(r@) == before + seq![join_spec(d[i as int], cmd@)]
                        + e.subrange(0, j as int).map_values(|x: Seq<char>| join_spec(d[i as int], cmd@ + x)),
                decreases exts@.len() - j,
            {
                let ghost mid = strs(r@);
                let mut c = dirs[i].clone();
                let mut name = cmd.to_owned();
                name.append(exts[j].as_str());
                join(&mut c, name.as_str());
                r.push(c);
                assert(strs(r@) =~= mid.push(join_spec(d[i as int], cmd@ + e[j as int])));
                assert(e.subrange(0, j + 1).map_values(|x: Seq<char>| join_spec(d[i as int], cmd@ + x))
                    =~= e.subrange(0, j as int).map_values(|x: Seq<char>| join_spec(d[i as int], cmd@ + x))
                        .push(join_spec(d[i as int], cmd@ + e[j as int])));
                j = j + 1;
            }
            assert(e.subrange(0, exts@.len() as int) =~= e);
        }
        assert(d.subrange(0, i + 1).drop_last() =~= d.subrange(0, i as int));
        assert(strs(r@) =~= candidates_spec(d.subrange(0, i + 1), cmd@, e));
        i = i + 1;
    }
    assert(d.subrange(0, dirs@.len() as int) =~= d);
    r
}

/// Whether `files` holds `f`.
fn holds(files: &Vec<String>, f: &String) -> (r: bool)
    ensures
        r == strs(files@).contains(f@),
{
    let mut i: usize = 0;
    while i < files.len()
        invariant
            i <= files@.len(),
            forall|k: int| 0 <= k < i ==> files@[k]@ != f@,
        decreases files@.len() - i,
    {
        if files[i] == *f {
            assert(strs(files@)[i as int] == f@);
            return true;
        }
        i = i + 1;
    }
    proof {
        if strs(files@).contains(f@) {
            let k = choose|k: int| 0 <= k < strs(files@).len() && strs(files@)[k] == f@;
            assert(files@[k]@ == f@);
        }
    }
    false
}

/// Looks `cmd` up on the search path `dirs`, where `files` are the files
/// that exist and `pathext` the executable extensions (empty where the
/// platform has none): the first candidate that exists.
pub fn find_command(cmd: &str, dirs: &Vec<String>, pathext: &Vec<String>, files: &Vec<String>) -> (r: Option<String>)
    ensures
        first_existing_spec(candidates_spec(strs(dirs@), cmd@, strs(pathext@)), strs(files@),
            match r { Some(s) => Some(s@), None => None }),
{
    let cands = command_candidates(cmd, dirs, pathext);
    let ghost c = strs(cands@);
    let mut i: usize = 0;
    while i < cands.len()
        invariant
            c == strs(cands@),
            c == candidates_spec(strs(dirs@), cmd@, strs(pathext@)),
            i <= cands@.len(),
            forall|j: int| 0 <= j < i ==> !strs(files@).contains(#[trigger] c[j]),
        decreases cands@.len() - i,
    {
        if holds(files, &cands[i]) {
            let found = cands[i].clone();
            assert(c[i as int] == found@);
            assert(strs(files@).contains(c[i as int]));
            assert(forall|j: int| 0 <= j < i as int ==> !strs(files@).contains(#[trigger] c[j]));
            assert(first_existing_spec(c, strs(files@), Some(found@)));
            return Some(found);
        }
        i = i + 1;
    }
    None
}

} // verus!
