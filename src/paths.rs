//! Locating the configuration file's directory from the compiler's
//! arguments: the directory that holds the `target` directory named in
//! `--out-dir`.

use vstd::prelude::*;
use crate::model::strings_view;

verus! {

/// The value of the last `--out-dir` option, read left to right: an option
/// consumes the argument after it, and one with nothing after it clears
/// what was found.
pub open spec fn out_dir_spec(args: Seq<Seq<char>>, found: Option<Seq<char>>) -> Option<Seq<char>>
    decreases args.len(),
{
    if args.len() == 0 {
        found
    } else if args[0] == "--out-dir"@ {
        if args.len() == 1 {
            None
        } else {
            out_dir_spec(args.subrange(2, args.len() as int), Some(args[1]))
        }
    } else {
        out_dir_spec(args.drop_first(), found)
    }
}

/// Finds the value of the last `--out-dir` option among `args`.
pub fn out_dir_argument(args: &Vec<String>) -> (r: Option<String>)
    ensures
        match r {
            Some(s) => out_dir_spec(strings_view(args@), None) == Some(s@),
            None => out_dir_spec(strings_view(args@), None) is None,
        },
{
    let ghost all = strings_view(args@);
    let flag = "--out-dir".to_string();
    let mut found: Option<String> = None;
    let mut i: usize = 0;
    assert(all.subrange(0, all.len() as int) =~= all);
    while i < args.len()
        invariant
            i <= args@.len(),
            all == strings_view(args@),
            flag@ == "--out-dir"@,
            out_dir_spec(all, None) == out_dir_spec(
                all.subrange(i as int, all.len() as int),
                match found {
                    Some(s) => Some(s@),
                    None => None,
                },
            ),
        decreases args@.len() - i,
    {
        let ghost rest = all.subrange(i as int, all.len() as int);
        if args[i] == flag {
            if i + 1 == args.len() {
                return None;
            }
            assert(rest.subrange(2, rest.len() as int) =~= all.subrange(i + 2, all.len() as int));
            found = Some(args[i + 1].clone());
            i = i + 2;
        } else {
            assert(rest.drop_first() =~= all.subrange(i + 1, all.len() as int));
            i = i + 1;
        }
    }
    found
}

/// The components before the last component named `target`, if any.
pub open spec fn root_spec(components: Seq<Seq<char>>) -> Option<Seq<Seq<char>>>
    decreases components.len(),
{
    if components.len() == 0 {
        None
    } else if components.last() == "target"@ {
        Some(components.drop_last())
    } else {
        root_spec(components.drop_last())
    }
}

/// The directory above the last `target` component of a path, given as its
/// components.
pub fn root_components(components: &Vec<String>) -> (r: Option<Vec<String>>)
    ensures
        match r {
            Some(v) => root_spec(strings_view(components@)) == Some(strings_view(v@)),
            None => root_spec(strings_view(components@)) is None,
        },
{
    let ghost all = strings_view(components@);
    let target = "target".to_string();
    let mut n: usize = components.len();
    assert(all.subrange(0, n as int) =~= all);
    while n > 0
        invariant
            n <= components@.len(),
            all == strings_view(components@),
            target@ == "target"@,
            root_spec(all) == root_spec(all.subrange(0, n as int)),
        decreases n,
    {
        assert(all.subrange(0, n as int).drop_last() =~= all.subrange(0, n - 1));
        if components[n - 1] == target {
            let mut out: Vec<String> = Vec::new();
            let mut j: usize = 0;
            while j < n - 1
                invariant
                    j <= n - 1,
                    n <= components@.len(),
                    out@ == components@.subrange(0, j as int),
                decreases n - 1 - j,
            {
                out.push(components[j].clone());
                j = j + 1;
            }
            assert(strings_view(out@) =~= all.subrange(0, n - 1));
            return Some(out);
        }
        n = n - 1;
    }
    None
}

} // verus!
