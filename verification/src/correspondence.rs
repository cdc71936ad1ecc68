//! Which reserve belongs to which reservation or disabled id: what holds of
//! the two derived lists for every input.

use vstd::prelude::*;
use crate::correlate::{
    hard_reserve_with, hard_reserves, lemma_lookup, lookup, project, resolve,
    soft_reserve_with, soft_reserves,
};
use crate::model::{Item, RaidItem, ReservationView, SoftReserveView};
use crate::positions::{
    emitted_before, lemma_emitted_before_monotone, lemma_filter_map_at, lemma_filter_map_source,
};

verus! {

/// The catalog holds an entry with this id.
pub open spec fn known(catalog: Seq<RaidItem>, id: i32) -> bool {
    exists|k: int| 0 <= k < catalog.len() && (#[trigger] catalog[k]).id == id
}

/// `k` is the first place of the catalog at which `id` stands.
pub open spec fn first_match(catalog: Seq<RaidItem>, id: i32, k: int) -> bool {
    &&& 0 <= k < catalog.len()
    &&& catalog[k].id == id
    &&& forall|j: int| 0 <= j < k ==> (#[trigger] catalog[j]).id != id
}

/// The reservation names an item and the catalog does not know it.
pub open spec fn unmatched(r: ReservationView, catalog: Seq<RaidItem>) -> bool {
    match r.raid_item_id {
        Some(id) => !known(catalog, id),
        None => false,
    }
}

/// `unmatched` with the catalog fixed.
pub open spec fn unmatched_in(catalog: Seq<RaidItem>) -> spec_fn(ReservationView) -> bool {
    |r: ReservationView| unmatched(r, catalog)
}

/// The id is not in the catalog.
pub open spec fn unknown_in(catalog: Seq<RaidItem>) -> spec_fn(i32) -> bool {
    |id: i32| !known(catalog, id)
}

/// The place in the soft reserves that the reservation at `i` takes, if it
/// gives rise to one: the number of soft reserves of the reservations before it.
pub open spec fn soft_position(rs: Seq<ReservationView>, catalog: Seq<RaidItem>, i: int) -> nat {
    emitted_before(rs, soft_reserve_with(catalog), i)
}

/// The place in the hard reserves that the disabled id at `i` takes, if the
/// catalog knows it.
pub open spec fn hard_position(ids: Seq<i32>, catalog: Seq<RaidItem>, i: int) -> nat {
    emitted_before(ids, hard_reserve_with(catalog), i)
}

/// `lookup` finds exactly the first entry with the id, and finds one exactly
/// when the catalog knows the id.
pub proof fn lemma_lookup_first(catalog: Seq<RaidItem>, id: i32)
    ensures
        lookup(catalog, id).is_some() <==> known(catalog, id),
        forall|k: int| first_match(catalog, id, k) ==> lookup(catalog, id) == Some(catalog[k]),
{
    lemma_lookup(catalog, id);
    assert forall|k: int| first_match(catalog, id, k) implies lookup(catalog, id) == Some(
        catalog[k],
    ) by {
        match lookup(catalog, id) {
            Some(entry) => {
                let i = choose|i: int|
                    0 <= i < catalog.len() && #[trigger] catalog[i] == entry && entry.id == id
                        && forall|j: int| 0 <= j < i ==> (#[trigger] catalog[j]).id != id;
                if i < k {
                    assert(catalog[i].id != id);
                } else if k < i {
                    assert(catalog[k].id != id);
                }
            },
            None => {
                assert(catalog[k].id != id);
            },
        }
    }
}

/// A reservation that names no item has a soft reserve, under the
/// participant's name, whose items are the placeholder alone.
pub proof fn law_absent_reference(rs: Seq<ReservationView>, catalog: Seq<RaidItem>, i: int)
    requires
        0 <= i < rs.len(),
        rs[i].raid_item_id.is_none(),
    ensures
        soft_position(rs, catalog, i) < soft_reserves(rs, catalog).len(),
        soft_reserves(rs, catalog)[soft_position(rs, catalog, i) as int] == (SoftReserveView {
            name: rs[i].name,
            items: seq![Item { id: 0, quality: 0 }],
        }),
        soft_position(rs, catalog, i + 1) == soft_position(rs, catalog, i) + 1,
{
    lemma_filter_map_at(rs, soft_reserve_with(catalog), i);
}

/// A reservation that names an item of the catalog has a soft reserve, under
/// the participant's name, whose items are the projection of the first
/// catalog entry with that id, alone.
pub proof fn law_matched_reference(
    rs: Seq<ReservationView>,
    catalog: Seq<RaidItem>,
    i: int,
    k: int,
)
    requires
        0 <= i < rs.len(),
        rs[i].raid_item_id.is_some(),
        first_match(catalog, rs[i].raid_item_id.unwrap(), k),
    ensures
        soft_position(rs, catalog, i) < soft_reserves(rs, catalog).len(),
        soft_reserves(rs, catalog)[soft_position(rs, catalog, i) as int] == (SoftReserveView {
            name: rs[i].name,
            items: seq![
                Item { id: catalog[k].turtle_db_item_id, quality: catalog[k].quality },
            ],
        }),
        soft_position(rs, catalog, i + 1) == soft_position(rs, catalog, i) + 1,
{
    lemma_lookup_first(catalog, rs[i].raid_item_id.unwrap());
    lemma_filter_map_at(rs, soft_reserve_with(catalog), i);
}

/// A reservation that names an item unknown to the catalog has no soft
/// reserve: the reservations up to and with it give as many as those before it.
pub proof fn law_unmatched_reference(rs: Seq<ReservationView>, catalog: Seq<RaidItem>, i: int)
    requires
        0 <= i < rs.len(),
        unmatched(rs[i], catalog),
    ensures
        soft_position(rs, catalog, i + 1) == soft_position(rs, catalog, i),
{
    lemma_lookup_first(catalog, rs[i].raid_item_id.unwrap());
    lemma_filter_map_at(rs, soft_reserve_with(catalog), i);
}

/// There are as many soft reserves as reservations, less the unmatched ones.
pub proof fn law_soft_reserve_count(rs: Seq<ReservationView>, catalog: Seq<RaidItem>)
    ensures
        soft_reserves(rs, catalog).len() == rs.len() - rs.filter(unmatched_in(catalog)).len(),
    decreases rs.len(),
{
    reveal(Seq::filter);
    if rs.len() > 0 {
        law_soft_reserve_count(rs.drop_last(), catalog);
        match rs.last().raid_item_id {
            Some(id) => lemma_lookup_first(catalog, id),
            None => {},
        }
    }
}

/// Every soft reserve belongs to a reservation: one that stands at the place
/// that `soft_position` gives and that names no item or a known one. It
/// carries that reservation's name and exactly one item, the one that the
/// reservation resolves to.
pub proof fn law_soft_reserve_source(rs: Seq<ReservationView>, catalog: Seq<RaidItem>, p: int)
    requires
        0 <= p < soft_reserves(rs, catalog).len(),
    ensures
        soft_reserves(rs, catalog)[p].items.len() == 1,
        exists|i: int|
            0 <= i < rs.len() && #[trigger] soft_position(rs, catalog, i) == p && !unmatched(
                rs[i],
                catalog,
            ) && soft_reserves(rs, catalog)[p].name == rs[i].name && Some(
                soft_reserves(rs, catalog)[p].items[0],
            ) == resolve(rs[i].raid_item_id, catalog),
{
    let i = lemma_filter_map_source(rs, soft_reserve_with(catalog), p);
    match rs[i].raid_item_id {
        Some(id) => lemma_lookup_first(catalog, id),
        None => {},
    }
    assert(soft_position(rs, catalog, i) == p);
}

/// A disabled id that the catalog knows has exactly one hard reserve, the
/// projection of the first catalog entry with that id; one that it does not
/// know has none.
pub proof fn law_disabled_id(ids: Seq<i32>, catalog: Seq<RaidItem>, i: int)
    requires
        0 <= i < ids.len(),
    ensures
        known(catalog, ids[i]) ==> {
            &&& hard_position(ids, catalog, i) < hard_reserves(ids, catalog).len()
            &&& hard_position(ids, catalog, i + 1) == hard_position(ids, catalog, i) + 1
            &&& forall|k: int| first_match(catalog, ids[i], k) ==> hard_reserves(
                ids,
                catalog,
            )[hard_position(ids, catalog, i) as int] == (Item {
                id: (#[trigger] catalog[k]).turtle_db_item_id,
                quality: catalog[k].quality,
            })
        },
        !known(catalog, ids[i]) ==> hard_position(ids, catalog, i + 1) == hard_position(
            ids,
            catalog,
            i,
        ),
{
    lemma_lookup_first(catalog, ids[i]);
    lemma_filter_map_at(ids, hard_reserve_with(catalog), i);
}

/// There are as many hard reserves as disabled ids, less the unknown ones.
pub proof fn law_hard_reserve_count(ids: Seq<i32>, catalog: Seq<RaidItem>)
    ensures
        hard_reserves(ids, catalog).len() == ids.len() - ids.filter(unknown_in(catalog)).len(),
    decreases ids.len(),
{
    reveal(Seq::filter);
    if ids.len() > 0 {
        law_hard_reserve_count(ids.drop_last(), catalog);
        lemma_lookup_first(catalog, ids.last());
    }
}

/// Every hard reserve belongs to a disabled id that the catalog knows: the
/// id stands at the place that `hard_position` gives, and the hard reserve
/// is the projection of the first catalog entry with that id.
pub proof fn law_hard_reserve_source(ids: Seq<i32>, catalog: Seq<RaidItem>, p: int)
    requires
        0 <= p < hard_reserves(ids, catalog).len(),
    ensures
        exists|i: int, k: int|
            0 <= i < ids.len() && #[trigger] hard_position(ids, catalog, i) == p && first_match(
                catalog,
                ids[i],
                k,
            ) && hard_reserves(ids, catalog)[p] == project(#[trigger] catalog[k]),
{
    let i = lemma_filter_map_source(ids, hard_reserve_with(catalog), p);
    lemma_lookup(catalog, ids[i]);
    let entry = lookup(catalog, ids[i]).unwrap();
    let k = choose|k: int|
        0 <= k < catalog.len() && #[trigger] catalog[k] == entry && entry.id == ids[i]
            && forall|j: int| 0 <= j < k ==> (#[trigger] catalog[j]).id != ids[i];
    assert(hard_position(ids, catalog, i) == p && first_match(catalog, ids[i], k)
        && hard_reserves(ids, catalog)[p] == project(catalog[k]));
}

/// The soft reserves stand in the order of their reservations: of two
/// reservations that both have one, the earlier one's stands first.
pub proof fn law_soft_order(rs: Seq<ReservationView>, catalog: Seq<RaidItem>, i: int, j: int)
    requires
        0 <= i < j < rs.len(),
        !unmatched(rs[i], catalog),
        !unmatched(rs[j], catalog),
    ensures
        soft_position(rs, catalog, i) < soft_position(rs, catalog, j) < soft_reserves(
            rs,
            catalog,
        ).len(),
        soft_reserves(rs, catalog)[soft_position(rs, catalog, i) as int].name == rs[i].name,
        soft_reserves(rs, catalog)[soft_position(rs, catalog, j) as int].name == rs[j].name,
{
    let f = soft_reserve_with(catalog);
    match rs[i].raid_item_id {
        Some(id) => lemma_lookup_first(catalog, id),
        None => {},
    }
    match rs[j].raid_item_id {
        Some(id) => lemma_lookup_first(catalog, id),
        None => {},
    }
    lemma_filter_map_at(rs, f, i);
    lemma_filter_map_at(rs, f, j);
    lemma_emitted_before_monotone(rs, f, i + 1, j);
}

/// The hard reserves stand in the order of their disabled ids.
pub proof fn law_hard_order(ids: Seq<i32>, catalog: Seq<RaidItem>, i: int, j: int)
    requires
        0 <= i < j < ids.len(),
        known(catalog, ids[i]),
        known(catalog, ids[j]),
    ensures
        hard_position(ids, catalog, i) < hard_position(ids, catalog, j) < hard_reserves(
            ids,
            catalog,
        ).len(),
        hard_reserves(ids, catalog)[hard_position(ids, catalog, i) as int] == project(
            lookup(catalog, ids[i]).unwrap(),
        ),
        hard_reserves(ids, catalog)[hard_position(ids, catalog, j) as int] == project(
            lookup(catalog, ids[j]).unwrap(),
        ),
{
    let f = hard_reserve_with(catalog);
    lemma_lookup_first(catalog, ids[i]);
    lemma_lookup_first(catalog, ids[j]);
    lemma_filter_map_at(ids, f, i);
    lemma_filter_map_at(ids, f, j);
    lemma_emitted_before_monotone(ids, f, i + 1, j);
}

} // verus!
