use vstd::prelude::*;

verus! {

/// One entry of the authorization manifest: a governance and the witnesses
/// that are intended to be authorized for it.
///
/// The manifest is an ordered sequence of these entries, in file order.
/// `governance_id` is expected to be unique but uniqueness is not enforced:
/// lookups take the first match, so a later duplicate entry is unreachable.
pub struct AuthEntry {
    pub governance_id: String,
    pub witness: Vec<String>,
}

/// Whether some entry of `entries` carries `id`.
pub open spec fn has_entry(entries: Seq<AuthEntry>, id: Seq<char>) -> bool {
    exists|i: int| 0 <= i < entries.len() && entries[i].governance_id@ == id
}

/// `i` is the index of the first entry of `entries` that carries `id`.
pub open spec fn found_at(entries: Seq<AuthEntry>, id: Seq<char>, i: int) -> bool {
    &&& 0 <= i < entries.len()
    &&& entries[i].governance_id@ == id
    &&& forall|j: int| 0 <= j < i ==> entries[j].governance_id@ != id
}

/// The governance ids of `entries`, in order, duplicates kept.
pub open spec fn ids_of(entries: Seq<AuthEntry>) -> Seq<String> {
    entries.map_values(|e: AuthEntry| e.governance_id)
}

/// Copy of a list of identity strings, used to hand manifest data out
/// without giving up the stored entry.
pub(crate) fn clone_strings(v: &Vec<String>) -> (r: Vec<String>)
    ensures
        r@ == v@,
{
    let mut r: Vec<String> = Vec::new();
    let mut k: usize = 0;
    while k < v.len()
        invariant
            k <= v.len(),
            r@ =~= v@.subrange(0, k as int),
        decreases v.len() - k,
    {
        r.push(v[k].clone());
        assert(r@ =~= v@.subrange(0, (k + 1) as int));
        k += 1;
    }
    assert(r@ =~= v@);
    r
}

/// The governance ids named by the manifest, in file order, duplicates kept.
pub fn governance_ids(entries: &Vec<AuthEntry>) -> (r: Vec<String>)
    ensures
        r@ == ids_of(entries@),
{
    let mut r: Vec<String> = Vec::new();
    let mut k: usize = 0;
    while k < entries.len()
        invariant
            k <= entries.len(),
            r@ =~= entries@.subrange(0, k as int).map_values(|e: AuthEntry| e.governance_id),
        decreases entries.len() - k,
    {
        r.push(entries[k].governance_id.clone());
        assert(r@ =~= entries@.subrange(0, (k + 1) as int).map_values(
            |e: AuthEntry| e.governance_id,
        ));
        k += 1;
    }
    assert(entries@.subrange(0, entries@.len() as int) =~= entries@);
    assert(r@ =~= ids_of(entries@));
    r
}

/// Index of the first manifest entry whose governance id equals `id`, if any.
pub fn find_first(entries: &Vec<AuthEntry>, id: &String) -> (r: Option<usize>)
    ensures
        match r {
            Some(i) => found_at(entries@, id@, i as int),
            None => !has_entry(entries@, id@),
        },
{
    let mut k: usize = 0;
    while k < entries.len()
        invariant
            k <= entries.len(),
            forall|j: int| 0 <= j < k ==> entries@[j].governance_id@ != id@,
        decreases entries.len() - k,
    {
        if entries[k].governance_id == *id {
            return Some(k);
        }
        k += 1;
    }
    None
}

} // verus!
