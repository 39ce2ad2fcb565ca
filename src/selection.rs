use vstd::prelude::*;

verus! {

/// The adapter taken when the system offers no default one: the first, in the
/// order the backend reported them, for which the surface supports at least
/// one format. `format_counts[i]` is the number of formats that the surface
/// supports with adapter `i`.
pub fn fallback_adapter(format_counts: &Vec<usize>) -> (r: Option<usize>)
    ensures
        r is None <==> forall|j: int| 0 <= j < format_counts@.len() ==> format_counts@[j] == 0,
        r matches Some(i) ==> {
            &&& i < format_counts@.len()
            &&& format_counts@[i as int] > 0
            &&& forall|j: int| 0 <= j < i ==> format_counts@[j] == 0
        },
{
    let mut i: usize = 0;
    while i < format_counts.len()
        invariant
            i <= format_counts@.len(),
            forall|j: int| 0 <= j < i ==> format_counts@[j] == 0,
        decreases format_counts@.len() - i,
    {
        if format_counts[i] > 0 {
            return Some(i);
        }
        i = i + 1;
    }
    None
}

} // verus!
