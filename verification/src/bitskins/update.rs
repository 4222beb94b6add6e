//! Rules of the BitSkins updater.
use crate::bitskins::db::Skin;
use vstd::prelude::*;

verus! {

/// The catalogue entry a sticker contributes: one exactly when its skin id,
/// class id and name are all known.
pub fn sticker_skin(
    skin_id: Option<i32>,
    class_id: Option<String>,
    name: Option<String>,
    suggested_price: Option<i32>,
) -> (r: Option<Skin>)
    ensures
        r == (match (skin_id, class_id, name) {
            (Some(id), Some(class_id), Some(name)) => Some(Skin { id, name, class_id, suggested_price }),
            _ => None,
        }),
{
    match (skin_id, class_id, name) {
        (Some(id), Some(class_id), Some(name)) => Some(Skin { id, name, class_id, suggested_price }),
        _ => None,
    }
}

/// The positions, in order, of the creation times later than `latest`.
pub open spec fn later_indices(created: Seq<i128>, latest: i128) -> Seq<int>
    decreases created.len(),
{
    if created.len() == 0 {
        Seq::empty()
    } else {
        let earlier = later_indices(created.drop_last(), latest);
        if created.last() > latest {
            earlier.push(created.len() - 1)
        } else {
            earlier
        }
    }
}

/// The sales that are new: the positions of those created (in nanoseconds
/// since the Unix epoch) after `latest`, the newest sale already stored.
pub fn new_sale_indices(created: &Vec<i128>, latest: i128) -> (r: Vec<usize>)
    ensures
        r@.map_values(|i: usize| i as int) == later_indices(created@, latest),
{
    let mut r: Vec<usize> = Vec::new();
    let mut i: usize = 0;
    while i < created.len()
        invariant
            i <= created@.len(),
            r@.map_values(|k: usize| k as int) == later_indices(created@.take(i as int), latest),
        decreases created@.len() - i,
    {
        assert(created@.take(i + 1).drop_last() =~= created@.take(i as int));
        if created[i] > latest {
            let ghost before = r@;
            r.push(i);
            assert(r@.map_values(|k: usize| k as int) =~= before.map_values(|k: usize| k as int).push(i as int));
        }
        i = i + 1;
    }
    assert(created@.take(created@.len() as int) =~= created@);
    r
}

} // verus!
