//! BitSkins database records and bookkeeping rules.
use vstd::prelude::*;

verus! {

/// Pool size of the database connection.
pub const MAX_CONNECTIONS: u32 = 5;

/// A skin as stored.
#[derive(Debug)]
pub struct Skin {
    pub id: i32,
    pub name: String,
    pub class_id: String,
    pub suggested_price: Option<i32>,
}

impl Clone for Skin {
    fn clone(&self) -> (r: Skin)
        ensures
            r == *self,
    {
        Skin {
            id: self.id,
            name: self.name.clone(),
            class_id: self.class_id.clone(),
            suggested_price: self.suggested_price,
        }
    }
}

/// The stored listings of a skin that the fresh listing no longer has, in
/// stored order.
pub open spec fn stale_ids_spec(existing: Seq<i32>, fresh: Seq<i32>) -> Seq<i32>
    decreases existing.len(),
{
    if existing.len() == 0 {
        Seq::empty()
    } else {
        let rest = stale_ids_spec(existing.drop_last(), fresh);
        if fresh.contains(existing.last()) {
            rest
        } else {
            rest.push(existing.last())
        }
    }
}

/// Whether `ids` holds `id`.
fn holds(ids: &Vec<i32>, id: i32) -> (r: bool)
    ensures
        r == ids@.contains(id),
{
    let mut i: usize = 0;
    while i < ids.len()
        invariant
            i <= ids@.len(),
            forall|k: int| 0 <= k < i ==> ids@[k] != id,
        decreases ids@.len() - i,
    {
        if ids[i] == id {
            return true;
        }
        i = i + 1;
    }
    false
}

/// When the listings of a skin are refreshed, the stored listings to delete:
/// those whose ids are not among the fresh ones.
pub fn stale_item_ids(existing: &Vec<i32>, fresh: &Vec<i32>) -> (r: Vec<i32>)
    ensures
        r@ == stale_ids_spec(existing@, fresh@),
{
    let mut r: Vec<i32> = Vec::new();
    let mut i: usize = 0;
    while i < existing.len()
        invariant
            i <= existing@.len(),
            r@ == stale_ids_spec(existing@.take(i as int), fresh@),
        decreases existing@.len() - i,
    {
        assert(existing@.take(i + 1).drop_last() =~= existing@.take(i as int));
        assert(existing@.take(i + 1).last() == existing@[i as int]);
        if !holds(fresh, existing[i]) {
            r.push(existing[i]);
        }
        i = i + 1;
    }
    assert(existing@.take(existing@.len() as int) =~= existing@);
    r
}

/// Every id marked stale was stored and is not among the fresh ones, and every
/// stored id that is not fresh is marked stale.
pub proof fn lemma_stale_ids_exact(existing: Seq<i32>, fresh: Seq<i32>)
    ensures
        forall|id: i32| #[trigger] stale_ids_spec(existing, fresh).contains(id)
            <==> existing.contains(id) && !fresh.contains(id),
    decreases existing.len(),
{
    if existing.len() > 0 {
        let init = existing.drop_last();
        lemma_stale_ids_exact(init, fresh);
        assert forall|id: i32| #[trigger] stale_ids_spec(existing, fresh).contains(id)
            <==> existing.contains(id) && !fresh.contains(id) by {
            let rest = stale_ids_spec(init, fresh);
            if existing.contains(id) {
                let k = choose|k: int| 0 <= k < existing.len() && existing[k] == id;
                if k < existing.len() - 1 {
                    assert(init[k] == id);
                }
            }
            if init.contains(id) {
                let k = choose|k: int| 0 <= k < init.len() && init[k] == id;
                assert(existing[k] == id);
            }
            if !fresh.contains(existing.last()) {
                assert(rest.push(existing.last()).last() == existing.last());
                if rest.push(existing.last()).contains(id) {
                    let k = choose|k: int| 0 <= k < rest.push(existing.last()).len() && rest.push(existing.last())[k] == id;
                    if k < rest.len() {
                        assert(rest[k] == id);
                    }
                }
                if rest.contains(id) {
                    let k = choose|k: int| 0 <= k < rest.len() && rest[k] == id;
                    assert(rest.push(existing.last())[k] == id);
                }
            }
        }
    }
}

} // verus!
