//! The recently used projects as the start screen and the open dialog list
//! them: by file name, each with its position in the list.
use vstd::prelude::*;

use crate::save_project::{file_name, path_file_name};

verus! {

/// The entries for the first `n` paths of `paths`, oldest first: each path
/// that has a file name, with its position.
pub open spec fn entries(paths: Seq<String>, n: nat) -> Seq<(usize, Seq<char>)>
    decreases n,
{
    if n == 0 {
        Seq::empty()
    } else {
        let before = entries(paths, (n - 1) as nat);
        match path_file_name(paths[n - 1]@) {
            Some(name) => before.push(((n - 1) as usize, name)),
            None => before,
        }
    }
}

/// An entry as text.
pub open spec fn entry_view(e: (usize, String)) -> (usize, Seq<char>) {
    (e.0, e.1@)
}

/// The entries of `paths` (see `entries`), the newest first where asked.
pub fn recent_project_entries(paths: &Vec<String>, newest_first: bool) -> (r: Vec<(usize, String)>)
    ensures
        newest_first ==> r@.map_values(|e: (usize, String)| entry_view(e)) == entries(
            paths@,
            paths@.len(),
        ).reverse(),
        !newest_first ==> r@.map_values(|e: (usize, String)| entry_view(e)) == entries(
            paths@,
            paths@.len(),
        ),
{
    let mut r: Vec<(usize, String)> = Vec::new();
    let mut i: usize = 0;
    while i < paths.len()
        invariant
            i <= paths.len(),
            r@.map_values(|e: (usize, String)| entry_view(e)) == entries(paths@, i as nat),
        decreases paths.len() - i,
    {
        let ghost before = r@;
        match file_name(paths[i].as_str()) {
            Some(name) => {
                r.push((i, name));
                assert(r@.map_values(|e: (usize, String)| entry_view(e)) =~= before.map_values(
                    |e: (usize, String)| entry_view(e),
                ).push((i, name@)));
            },
            None => {},
        }
        i = i + 1;
    }
    if newest_first {
        let ghost oldest_first = r@;
        let mut rev: Vec<(usize, String)> = Vec::new();
        let mut j: usize = r.len();
        while j > 0
            invariant
                j <= r.len(),
                r@ == oldest_first,
                rev@ == oldest_first.subrange(j as int, oldest_first.len() as int).reverse(),
            decreases j,
        {
            j = j - 1;
            let e = (r[j].0, r[j].1.clone());
            rev.push(e);
            assert(oldest_first.subrange(j as int, oldest_first.len() as int).reverse() =~= oldest_first.subrange(
                j as int + 1,
                oldest_first.len() as int,
            ).reverse().push(oldest_first[j as int]));
        }
        assert(oldest_first.subrange(0, oldest_first.len() as int) =~= oldest_first);
        assert(rev@.map_values(|e: (usize, String)| entry_view(e)) =~= oldest_first.map_values(
            |e: (usize, String)| entry_view(e),
        ).reverse());
        rev
    } else {
        r
    }
}

} // verus!
