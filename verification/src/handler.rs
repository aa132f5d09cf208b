//! The decision core of the lookup handler: which slug, if any, a request
//! path asks for. The handler around it answers an empty slug with an input
//! error before anything reaches persistence; a present slug becomes the
//! key of a single-row query.

use vstd::prelude::*;

verus! {

/// Where the last path segment of `s` starts: just after the last `/`, or
/// at the start if there is none.
pub open spec fn last_segment_start(s: Seq<u8>) -> int
    decreases s.len(),
{
    if s.len() == 0 {
        0
    } else if s.last() == 47 {
        s.len() as int
    } else {
        last_segment_start(s.drop_last())
    }
}

/// The last `/`-separated segment of a path: what follows the final slash,
/// or the whole path if it has no slash.
pub open spec fn last_segment(s: Seq<u8>) -> Seq<u8> {
    s.subrange(last_segment_start(s), s.len() as int)
}

/// The slug a request path asks for: its last path segment. `None` exactly
/// when that segment is empty — the path ends in `/` or is empty — which
/// the handler must reject before reaching persistence; an empty key is
/// invalid input, not a lookup of nothing.
pub fn requested_slug(path: &[u8]) -> (r: Option<Vec<u8>>)
    ensures
        last_segment(path@).len() == 0 <==> r is None,
        r matches Some(v) ==> v@ == last_segment(path@) && v@.len() > 0,
{
    let mut cut: usize = 0;
    let mut i: usize = 0;
    while i < path.len()
        invariant
            cut <= i <= path@.len(),
            cut as int == last_segment_start(path@.take(i as int)),
        decreases path@.len() - i,
    {
        proof {
            assert(path@.take(i + 1).drop_last() =~= path@.take(i as int));
            assert(path@.take(i + 1).last() == path@[i as int]);
        }
        if path[i] == 47 {
            cut = i + 1;
        }
        i += 1;
    }
    proof {
        assert(path@.take(path@.len() as int) =~= path@);
    }
    if cut == path.len() {
        return None;
    }
    let mut seg: Vec<u8> = Vec::new();
    let mut k: usize = cut;
    while k < path.len()
        invariant
            cut <= k <= path@.len(),
            seg@ =~= path@.subrange(cut as int, k as int),
        decreases path@.len() - k,
    {
        let b = path[k];
        seg.push(b);
        proof {
            assert(seg@ =~= path@.subrange(cut as int, k + 1));
        }
        k += 1;
    }
    Some(seg)
}

} // verus!
