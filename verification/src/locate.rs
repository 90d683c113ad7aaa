//! Where the external tools are looked for: the search path first, then a
//! short list of usual install places that depends on the operating system.

use vstd::prelude::*;
use crate::process::opt_view;
use crate::text::views;

verus! {

/// The operating systems that have install places and hints of their own.
/// Everything else is `Other`.
#[derive(Debug, Clone, Copy, PartialEq, Eq, Structural)]
pub enum Platform {
    Windows,
    MacOs,
    Linux,
    Other,
}

/// What is known of the machine: its operating system, and where each tool
/// was found, if it was.
#[derive(Debug, Clone, PartialEq, Eq)]
pub struct Host {
    pub platform: Platform,
    pub ghostscript: Option<String>,
    pub qpdf: Option<String>,
}

/// The first candidate that is marked present; a candidate without a mark
/// counts as absent.
pub open spec fn first_present(candidates: Seq<Seq<char>>, present: Seq<bool>) -> Option<
    Seq<char>,
>
    decreases candidates.len(),
{
    if candidates.len() == 0 || present.len() == 0 {
        None
    } else if present[0] {
        Some(candidates[0])
    } else {
        first_present(candidates.drop_first(), present.drop_first())
    }
}

/// Where a tool is: the place found on the search path if there is one,
/// else the first install place that is present.
pub open spec fn located(
    on_path: Option<Seq<char>>,
    candidates: Seq<Seq<char>>,
    present: Seq<bool>,
) -> Option<Seq<char>> {
    match on_path {
        Some(p) => Some(p),
        None => first_present(candidates, present),
    }
}

/// Picks the place of a tool from what was found on the search path and
/// from the install places, `present[i]` saying whether `candidates[i]`
/// exists.
pub fn locate(on_path: Option<String>, candidates: Vec<String>, present: &Vec<bool>) -> (r: Option<
    String,
>)
    ensures
        opt_view(r) == located(opt_view(on_path), views(candidates@), present@),
{
    if on_path.is_some() {
        return on_path;
    }
    let mut i: usize = 0;
    proof {
        assert(views(candidates@).skip(0) =~= views(candidates@));
        assert(present@.skip(0) =~= present@);
    }
    while i < candidates.len() && i < present.len()
        invariant
            on_path is None,
            i <= candidates@.len(),
            i <= present@.len(),
            first_present(views(candidates@), present@) == first_present(
                views(candidates@).skip(i as int),
                present@.skip(i as int),
            ),
        decreases candidates@.len() - i,
    {
        let ghost c = views(candidates@).skip(i as int);
        let ghost p = present@.skip(i as int);
        proof {
            assert(c.drop_first() =~= views(candidates@).skip(i + 1));
            assert(p.drop_first() =~= present@.skip(i + 1));
        }
        if present[i] {
            let found = candidates[i].clone();
            proof {
                assert(c[0] == candidates@[i as int]@);
                assert(p[0] == present@[i as int]);
            }
            return Some(found);
        }
        i += 1;
    }
    None
}

} // verus!
