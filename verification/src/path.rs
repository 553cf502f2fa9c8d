//! A character-level model of slash-separated paths.
//!
//! Paths are plain strings here; joining appends a segment behind a
//! single separator (an absolute segment replaces the base, as the
//! platform path type does), and the parent of a path is everything
//! before its last separator.

use vstd::prelude::*;
use vstd::string::StrSliceExecFns;
use vstd::string::StringExecFns;

verus! {

/// `seg` appended to the path `base`: the segment alone when it is
/// absolute or the base is empty, otherwise the base, exactly one
/// separator, and the segment.
pub open spec fn path_join(base: Seq<char>, seg: Seq<char>) -> Seq<char> {
    if seg.len() > 0 && seg[0] == '/' {
        seg
    } else if base.len() == 0 {
        seg
    } else if base[base.len() - 1] == '/' {
        base + seg
    } else {
        base + "/"@ + seg
    }
}

/// Join one segment onto a base path.
pub fn join_path(base: &str, seg: &str) -> (r: String)
    ensures
        r@ == path_join(base@, seg@),
{
    if !seg.is_empty() && seg.get_char(0) == '/' {
        seg.to_owned()
    } else if base.is_empty() {
        seg.to_owned()
    } else {
        let n = base.unicode_len();
        let mut r = base.to_owned();
        if base.get_char(n - 1) != '/' {
            r.append("/");
        }
        r.append(seg);
        r
    }
}

/// `p` with its last component removed: characters are dropped from the
/// end up to and including the last separator; a path without a
/// separator is stripped to the empty sequence.
pub open spec fn strip_last_component(p: Seq<char>) -> Seq<char>
    decreases p.len(),
{
    if p.len() == 0 {
        p
    } else if p[p.len() - 1] == '/' {
        p.drop_last()
    } else {
        strip_last_component(p.drop_last())
    }
}

/// The parent directory of a path: everything before the last
/// separator, except that a one-component absolute path keeps its
/// root.
pub open spec fn path_parent(p: Seq<char>) -> Seq<char> {
    let q = strip_last_component(p);
    if q.len() == 0 && p.len() > 0 && p[0] == '/' {
        "/"@
    } else {
        q
    }
}

/// Trailing characters that contain no separator do not change what
/// stripping the last component gives.
proof fn lemma_strip_last_component_take(p: Seq<char>, k: int)
    requires
        0 <= k <= p.len(),
        forall|j: int| k <= j < p.len() ==> p[j] != '/',
    ensures
        strip_last_component(p) == strip_last_component(p.take(k)),
    decreases p.len() - k,
{
    if k == p.len() {
        assert(p.take(k) =~= p);
    } else {
        assert(p[p.len() - 1] != '/');
        assert(p.drop_last() =~= p.take(p.len() - 1));
        lemma_strip_last_component_take(p.take(p.len() - 1), k);
        assert(p.take(p.len() - 1).take(k) =~= p.take(k));
    }
}

/// The parent directory of a path.
pub fn parent_dir(p: &str) -> (r: String)
    ensures
        r@ == path_parent(p@),
{
    let n = p.unicode_len();
    let mut i: usize = n;
    while i > 0 && p.get_char(i - 1) != '/'
        invariant
            i <= n,
            n == p@.len(),
            forall|j: int| i <= j < p@.len() ==> p@[j] != '/',
        decreases i,
    {
        i = i - 1;
    }
    proof {
        lemma_strip_last_component_take(p@, i as int);
    }
    if i == 0 {
        proof {
            assert(p@.take(0) =~= Seq::<char>::empty());
        }
        String::new()
    } else {
        proof {
            assert(p@.take(i as int)[i - 1] == p@[i - 1]);
            assert(p@.take(i as int).drop_last() =~= p@.take(i - 1));
        }
        if i == 1 {
            "/".to_owned()
        } else {
            let q = p.substring_char(0, i - 1);
            proof {
                assert(q@ =~= p@.take(i - 1));
            }
            q.to_owned()
        }
    }
}

} // verus!
