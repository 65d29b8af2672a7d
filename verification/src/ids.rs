use vstd::prelude::*;

verus! {

/// No identifier occurs twice in the sequence.
pub open spec fn unique_ids(s: Seq<u16>) -> bool {
    forall|i: int, j: int| 0 <= i < j < s.len() ==> s[i] != s[j]
}

/// Every identifier in the sequence is non-zero, as the scheme demands of
/// participant identifiers.
pub open spec fn all_nonzero(s: Seq<u16>) -> bool {
    forall|i: int| 0 <= i < s.len() ==> s[i] != 0
}

/// The sequence of identifiers of a list of (identifier, payload) entries.
pub open spec fn firsts<T>(s: Seq<(u16, T)>) -> Seq<u16> {
    s.map(|i: int, e: (u16, T)| e.0)
}

/// Whether `id` occurs in `ids`.
pub fn contains_id(ids: &Vec<u16>, id: u16) -> (b: bool)
    ensures
        b == ids@.contains(id),
{
    let mut k: usize = 0;
    while k < ids.len()
        invariant
            k <= ids@.len(),
            forall|i: int| 0 <= i < k ==> ids@[i] != id,
        decreases ids@.len() - k,
    {
        if ids[k] == id {
            return true;
        }
        k = k + 1;
    }
    false
}

/// Whether every identifier in `ids` occurs only once.
pub fn ids_unique(ids: &Vec<u16>) -> (b: bool)
    ensures
        b == unique_ids(ids@),
{
    let mut k: usize = 0;
    while k < ids.len()
        invariant
            k <= ids@.len(),
            forall|i: int, j: int| 0 <= i < j < ids@.len() && i < k ==> ids@[i] != ids@[j],
        decreases ids@.len() - k,
    {
        let mut m: usize = k + 1;
        while m < ids.len()
            invariant
                k < m,
                m <= ids@.len(),
                k < ids@.len(),
                forall|j: int| k < j < m ==> ids@[k as int] != ids@[j],
            decreases ids@.len() - m,
        {
            if ids[k] == ids[m] {
                return false;
            }
            m = m + 1;
        }
        k = k + 1;
    }
    true
}

/// Whether some identifier in `ids` is zero.
pub fn has_zero(ids: &Vec<u16>) -> (b: bool)
    ensures
        b == !all_nonzero(ids@),
{
    let mut k: usize = 0;
    while k < ids.len()
        invariant
            k <= ids@.len(),
            forall|i: int| 0 <= i < k ==> ids@[i] != 0,
        decreases ids@.len() - k,
    {
        if ids[k] == 0 {
            return true;
        }
        k = k + 1;
    }
    false
}

} // verus!
