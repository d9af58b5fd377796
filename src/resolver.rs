//! The decisions of the executable search: which directories the search
//! path names, which file each of them offers for a command name, whether a
//! file may be run, and which candidate wins.

use vstd::prelude::*;
use crate::text::push_char;

verus! {

/// The separator of entries in the search path.
pub const PATH_SEPARATOR: char = ':';

/// The entries of search path `s`, split at every separator; empty entries
/// are kept, so there is always at least one.
pub open spec fn path_entries(s: Seq<char>) -> Seq<Seq<char>>
    decreases s.len(),
{
    if s.len() == 0 {
        seq![seq![]]
    } else {
        let front = path_entries(s.drop_last());
        if s.last() == PATH_SEPARATOR {
            front.push(seq![])
        } else {
            front.update(front.len() - 1, front.last().push(s.last()))
        }
    }
}

proof fn lemma_path_entries_nonempty(s: Seq<char>)
    ensures
        path_entries(s).len() >= 1,
    decreases s.len(),
{
    if s.len() > 0 {
        lemma_path_entries_nonempty(s.drop_last());
    }
}

/// The directories that search path `path` names, in order.
pub fn search_dirs(path: &str) -> (r: Vec<String>)
    ensures
        r.deep_view() == path_entries(path@),
{
    let ghost s = path@;
    let n = path.unicode_len();
    let mut done: Vec<String> = Vec::new();
    let mut cur = String::new();
    let mut i: usize = 0;
    assert(s.subrange(0, 0) =~= seq![]);
    assert(done.deep_view().push(cur@) =~= seq![seq![]]);
    while i < n
        invariant
            s == path@,
            n == s.len(),
            i <= n,
            done.deep_view().push(cur@) == path_entries(s.subrange(0, i as int)),
        decreases n - i,
    {
        let c = path.get_char(i);
        let ghost before = done.deep_view();
        let ghost cv = cur@;
        let ghost prefix = s.subrange(0, i + 1);
        assert(prefix.drop_last() =~= s.subrange(0, i as int));
        proof {
            lemma_path_entries_nonempty(s.subrange(0, i as int));
        }
        if c == PATH_SEPARATOR {
            done.push(cur);
            cur = String::new();
            assert(done.deep_view() =~= before.push(cv));
        } else {
            push_char(&mut cur, c);
        }
        assert(done.deep_view().push(cur@) =~= path_entries(prefix));
        i = i + 1;
    }
    assert(s.subrange(0, n as int) =~= s);
    done.push(cur);
    assert(done.deep_view() =~= path_entries(s));
    done
}

/// The file that directory `dir` offers for command name `name`: the name
/// below the directory, with a `/` between them where `dir` does not end in
/// one. An absolute name stands for itself, and an empty directory adds
/// nothing.
pub open spec fn candidate_path(dir: Seq<char>, name: Seq<char>) -> Seq<char> {
    if name.len() > 0 && name[0] == '/' {
        name
    } else if dir.len() == 0 {
        name
    } else if dir.last() == '/' {
        dir + name
    } else {
        dir + seq!['/'] + name
    }
}

/// The file that directory `dir` offers for command name `name`.
pub fn candidate(dir: &str, name: &str) -> (r: String)
    ensures
        r@ == candidate_path(dir@, name@),
{
    let dn = dir.unicode_len();
    if name.unicode_len() > 0 && name.get_char(0) == '/' {
        return String::from_str(name);
    }
    if dn == 0 {
        return String::from_str(name);
    }
    let mut r = String::from_str(dir);
    if dir.get_char(dn - 1) != '/' {
        push_char(&mut r, '/');
    }
    r.append(name);
    r
}

/// The files to try for command name `name` under search path `path`, one
/// per entry, in order.
pub fn search_candidates(path: &str, name: &str) -> (r: Vec<String>)
    ensures
        r.deep_view() == path_entries(path@).map_values(|d: Seq<char>| candidate_path(d, name@)),
{
    let dirs = search_dirs(path);
    let ghost ds = dirs.deep_view();
    let mut r: Vec<String> = Vec::new();
    let mut i: usize = 0;
    while i < dirs.len()
        invariant
            ds == dirs.deep_view(),
            ds == path_entries(path@),
            i <= dirs.len(),
            r.deep_view() == ds.subrange(0, i as int).map_values(
                |d: Seq<char>| candidate_path(d, name@),
            ),
        decreases dirs.len() - i,
    {
        let ghost before = r.deep_view();
        let c = candidate(dirs[i].as_str(), name);
        r.push(c);
        assert(r.deep_view() =~= before.push(candidate_path(ds[i as int], name@)));
        assert(r.deep_view() =~= ds.subrange(0, i + 1).map_values(
            |d: Seq<char>| candidate_path(d, name@),
        ));
        i = i + 1;
    }
    assert(ds.subrange(0, dirs.len() as int) =~= ds);
    r
}

/// Whether permission bits `mode` let anyone execute the file: the owner,
/// the group or others.
pub open spec fn may_execute(mode: u32) -> bool {
    mode & 0o100 != 0 || mode & 0o010 != 0 || mode & 0o001 != 0
}

/// Whether a file may be run: it is a regular file and, where the host keeps
/// permission bits (`mode` is `Some`), one of its execute bits is set.
pub fn is_runnable(is_file: bool, mode: Option<u32>) -> (r: bool)
    ensures
        r == (is_file && match mode {
            Some(m) => may_execute(m),
            None => true,
        }),
{
    if !is_file {
        return false;
    }
    match mode {
        Some(m) => {
            let r = m & 0o111 != 0;
            assert(r == may_execute(m)) by (bit_vector)
                requires
                    r == (m & 0o111 != 0),
            ;
            r
        },
        None => true,
    }
}

/// The first of `candidates` whose entry in `runnable` is set, if any.
pub fn first_runnable(candidates: &[String], runnable: &[bool]) -> (r: Option<String>)
    requires
        candidates.len() == runnable.len(),
    ensures
        match r {
            Some(p) => exists|i: int|
                0 <= i < runnable.len() && runnable[i] && p@ == candidates[i]@ && forall|j: int|
                    0 <= j < i ==> !runnable[j],
            None => forall|i: int| 0 <= i < runnable.len() ==> !runnable[i],
        },
{
    let mut i: usize = 0;
    while i < runnable.len()
        invariant
            candidates.len() == runnable.len(),
            i <= runnable.len(),
            forall|j: int| 0 <= j < i ==> !runnable[j],
        decreases runnable.len() - i,
    {
        if runnable[i] {
            return Some(candidates[i].clone());
        }
        i = i + 1;
    }
    None
}

} // verus!
