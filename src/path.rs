use vstd::prelude::*;
use vstd::slice::{slice_subrange, slice_to_vec};
use crate::text::has_nul;

verus! {

/// The separator byte, '/'.
pub const SEP: u8 = 47u8;

/// The current-directory byte, '.'.
pub const DOT: u8 = 46u8;

/// Drops what a path may end with that names no file of its own: trailing
/// separators, a lone ".", and trailing "/." pieces.
pub open spec fn trim_tail(p: Seq<u8>) -> Seq<u8>
    decreases p.len(),
{
    if p.len() == 0 {
        p
    } else if p.last() == SEP {
        trim_tail(p.drop_last())
    } else if p =~= seq![DOT] {
        Seq::empty()
    } else if p.len() >= 2 && p.last() == DOT && p[p.len() - 2] == SEP {
        trim_tail(p.drop_last())
    } else {
        p
    }
}

/// The index of the last separator of `p`, or -1 if it has none.
pub open spec fn last_sep(p: Seq<u8>) -> int
    decreases p.len(),
{
    if p.len() == 0 {
        -1
    } else if p.last() == SEP {
        p.len() - 1
    } else {
        last_sep(p.drop_last())
    }
}

/// The final component of a path when it names a file: the piece after the
/// last separator once the tail is trimmed; empty when that piece is ".." or
/// when nothing is left.
pub open spec fn file_name(p: Seq<u8>) -> Seq<u8> {
    let t = trim_tail(p);
    let piece = t.subrange(last_sep(t) + 1, t.len() as int);
    if piece =~= seq![DOT, DOT] {
        Seq::empty()
    } else {
        piece
    }
}

/// Returns `(start, end)` with `file_name(p) == p[start..end]`.
fn file_name_bounds(p: &[u8]) -> (r: (usize, usize))
    ensures
        r.0 <= r.1 <= p@.len(),
        file_name(p@) == p@.subrange(r.0 as int, r.1 as int),
{
    let mut end: usize = p.len();
    assert(p@.subrange(0, end as int) =~= p@);
    while end > 0
        invariant
            end <= p@.len(),
            trim_tail(p@.subrange(0, end as int)) == trim_tail(p@),
        ensures
            end <= p@.len(),
            trim_tail(p@.subrange(0, end as int)) == trim_tail(p@),
            end == 0 || (p@[end - 1] != SEP && !(end == 1 && p@[0] == DOT) && !(end >= 2
                && p@[end - 1] == DOT && p@[end - 2] == SEP)),
        decreases end,
    {
        let ghost q = p@.subrange(0, end as int);
        assert(q.drop_last() =~= p@.subrange(0, end - 1));
        if p[end - 1] == SEP {
            end = end - 1;
        } else if end == 1 && p[0] == DOT {
            assert(q =~= seq![DOT]);
            end = 0;
            assert(p@.subrange(0, 0) =~= Seq::<u8>::empty());
        } else if end >= 2 && p[end - 1] == DOT && p[end - 2] == SEP {
            end = end - 1;
        } else {
            break;
        }
    }
    let ghost t = p@.subrange(0, end as int);
    proof {
        if end > 0 {
            assert(t.last() == p@[end - 1]);
            if end >= 2 {
                assert(t[t.len() - 2] == p@[end - 2]);
            }
            if t =~= seq![DOT] {
                assert(p@[0] == t[0]);
            }
        }
    }
    assert(trim_tail(t) == t);
    let mut start: usize = end;
    while start > 0 && p[start - 1] != SEP
        invariant
            start <= end <= p@.len(),
            last_sep(p@.subrange(0, start as int)) == last_sep(t),
        decreases start,
    {
        assert(p@.subrange(0, start as int).drop_last() =~= p@.subrange(0, start - 1));
        start = start - 1;
    }
    proof {
        if start == 0 {
            assert(p@.subrange(0, 0) =~= Seq::<u8>::empty());
        }
        assert(last_sep(t) + 1 == start);
        assert(t.subrange(start as int, end as int) =~= p@.subrange(start as int, end as int));
    }
    if end - start == 2 && p[start] == DOT && p[start + 1] == DOT {
        assert(p@.subrange(start as int, end as int) =~= seq![DOT, DOT]);
        (0, 0)
    } else {
        assert(!(p@.subrange(start as int, end as int) =~= seq![DOT, DOT]));
        (start, end)
    }
}

/// The final component of the path `p`, as `file_name` states it; empty when
/// the path names no file.
pub fn base_name(p: &[u8]) -> (r: Vec<u8>)
    ensures
        r@ == file_name(p@),
        !has_nul(p@) ==> !has_nul(r@),
{
    let (s, e) = file_name_bounds(p);
    let r = slice_to_vec(slice_subrange(p, s, e));
    assert forall|i: int| 0 <= i < r@.len() implies r@[i] == p@[s + i] by {}
    r
}

} // verus!
