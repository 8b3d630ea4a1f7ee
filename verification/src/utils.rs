//! Path-name helpers.
//!
//! A path name is either valid UTF-8 (held as the string it converts to) or
//! not (held as its raw bytes). Callers that get paths from the operating
//! system classify each one while converting into this type.
use vstd::prelude::*;

verus! {

/// A file-system path name, classified by whether it is valid UTF-8.
#[derive(Clone, Debug, PartialEq, Eq)]
pub enum PathName {
    /// A path whose name converts to UTF-8.
    Utf8(String),
    /// A path whose name is not valid UTF-8, as raw bytes.
    NonUtf8(Vec<u8>),
}

/// Whether a path name cannot be converted to UTF-8.
pub open spec fn invalid_utf8(p: PathName) -> bool {
    p is NonUtf8
}

/// The subsequence of invalid-UTF-8 paths, in order.
pub open spec fn invalid_utf8_paths(s: Seq<PathName>) -> Seq<PathName>
    decreases s.len(),
{
    if s.len() == 0 {
        Seq::empty()
    } else if invalid_utf8(s[0]) {
        seq![s[0]] + invalid_utf8_paths(s.drop_first())
    } else {
        invalid_utf8_paths(s.drop_first())
    }
}

/// Check if a path name cannot be converted to UTF-8.
pub fn is_invalid_utf8(path: &PathName) -> (r: bool)
    ensures
        r == invalid_utf8(*path),
{
    match path {
        PathName::Utf8(_) => false,
        PathName::NonUtf8(_) => true,
    }
}

/// Filter out of a list of paths those that are not valid UTF-8.
pub fn get_invalid_utf8_paths<'a>(paths: &'a Vec<PathName>) -> (r: Vec<&'a PathName>)
    ensures
        r@.map_values(|q: &PathName| *q) == invalid_utf8_paths(paths@),
{
    let ghost all: Seq<PathName> = paths@;
    let mut r: Vec<&PathName> = Vec::new();
    proof {
        assert(all.skip(0) =~= all);
        assert(r@.map_values(|q: &PathName| *q) + invalid_utf8_paths(all) =~= invalid_utf8_paths(
            all,
        ));
    }
    let mut i: usize = 0;
    while i < paths.len()
        invariant
            i <= all.len(),
            paths@ == all,
            r@.map_values(|q: &PathName| *q) + invalid_utf8_paths(all.skip(i as int))
                == invalid_utf8_paths(all),
        decreases all.len() - i,
    {
        proof {
            assert(all.skip(i as int)[0] == all[i as int]);
            assert(all.skip(i as int).drop_first() =~= all.skip(i as int + 1));
        }
        let element = &paths[i];
        if is_invalid_utf8(element) {
            let ghost prev: Seq<PathName> = r@.map_values(|q: &PathName| *q);
            r.push(element);
            proof {
                assert(r@.map_values(|q: &PathName| *q) =~= prev + seq![all[i as int]]);
                assert((prev + seq![all[i as int]]) + invalid_utf8_paths(all.skip(i as int + 1))
                    =~= prev + (seq![all[i as int]] + invalid_utf8_paths(all.skip(i as int + 1))));
            }
        }
        i = i + 1;
    }
    proof {
        assert(all.skip(i as int) =~= Seq::<PathName>::empty());
        assert(r@.map_values(|q: &PathName| *q) + Seq::<PathName>::empty() =~= r@.map_values(
            |q: &PathName| *q,
        ));
    }
    r
}

} // verus!
