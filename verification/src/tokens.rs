//! Small helpers for building token lists, with contracts over the
//! deep view (`Seq<Seq<char>>`) of a `Vec<String>`.

use vstd::prelude::*;

verus! {

/// Append one token to a token list.
pub fn push_token(v: &mut Vec<String>, t: String)
    ensures
        final(v).deep_view() == old(v).deep_view().push(t@),
{
    let ghost tv = t@;
    v.push(t);
    proof {
        assert(v.deep_view() =~= old(v).deep_view().push(tv));
    }
}

/// Append a whole token list to another.
pub fn append_tokens(v: &mut Vec<String>, w: Vec<String>)
    ensures
        final(v).deep_view() == old(v).deep_view() + w.deep_view(),
{
    let ghost wv = w.deep_view();
    let mut w = w;
    v.append(&mut w);
    proof {
        assert(v.deep_view() =~= old(v).deep_view() + wv);
    }
}

/// Copy a list of strings.
pub fn clone_strings(v: &Vec<String>) -> (r: Vec<String>)
    ensures
        r.deep_view() == v.deep_view(),
{
    let mut r: Vec<String> = Vec::new();
    let mut i: usize = 0;
    while i < v.len()
        invariant
            i <= v.len(),
            r@.len() == i,
            forall|j: int| 0 <= j < i ==> r@[j]@ == v@[j]@,
        decreases v.len() - i,
    {
        r.push(v[i].clone());
        i += 1;
    }
    proof {
        assert(r.deep_view() =~= v.deep_view());
    }
    r
}

} // verus!
