//! The correlation of reservations and disabled item ids with the catalog.

use vstd::prelude::*;
use crate::model::{Item, RaidItem, ReservationData, ReservationView, SoftReserve, SoftReserveView};
use crate::model::{reservation_views, soft_reserve_views};

verus! {

/// The first catalog entry whose `id` is `id`, if there is one.
pub open spec fn lookup(catalog: Seq<RaidItem>, id: i32) -> Option<RaidItem>
    decreases catalog.len(),
{
    if catalog.len() == 0 {
        None
    } else if catalog[0].id == id {
        Some(catalog[0])
    } else {
        lookup(catalog.drop_first(), id)
    }
}

/// The reported form of a catalog entry.
pub open spec fn project(entry: RaidItem) -> Item {
    Item { id: entry.turtle_db_item_id, quality: entry.quality }
}

/// The item that stands for "no item named".
pub open spec fn placeholder() -> Item {
    Item { id: 0, quality: 0 }
}

/// The item that a reservation resolves to: the placeholder where it names
/// none, the projection of the catalog entry where it names a known one, and
/// nothing where it names an unknown one.
pub open spec fn resolve(reference: Option<i32>, catalog: Seq<RaidItem>) -> Option<Item> {
    match reference {
        None => Some(placeholder()),
        Some(id) => match lookup(catalog, id) {
            Some(entry) => Some(project(entry)),
            None => None,
        },
    }
}

/// The soft reserve that one reservation gives rise to, if any.
pub open spec fn soft_reserve_for(r: ReservationView, catalog: Seq<RaidItem>) -> Option<
    SoftReserveView,
> {
    match resolve(r.raid_item_id, catalog) {
        Some(item) => Some(SoftReserveView { name: r.name, items: seq![item] }),
        None => None,
    }
}

/// `soft_reserve_for` with the catalog fixed.
pub open spec fn soft_reserve_with(catalog: Seq<RaidItem>) -> spec_fn(ReservationView) -> Option<
    SoftReserveView,
> {
    |r: ReservationView| soft_reserve_for(r, catalog)
}

/// The soft reserves of a list of reservations: what each reservation gives
/// rise to, in the order of the reservations.
pub open spec fn soft_reserves(rs: Seq<ReservationView>, catalog: Seq<RaidItem>) -> Seq<
    SoftReserveView,
> {
    rs.filter_map(soft_reserve_with(catalog))
}

/// The hard reserve that one disabled id gives rise to, if any.
pub open spec fn hard_reserve_for(id: i32, catalog: Seq<RaidItem>) -> Option<Item> {
    match lookup(catalog, id) {
        Some(entry) => Some(project(entry)),
        None => None,
    }
}

/// `hard_reserve_for` with the catalog fixed.
pub open spec fn hard_reserve_with(catalog: Seq<RaidItem>) -> spec_fn(i32) -> Option<Item> {
    |id: i32| hard_reserve_for(id, catalog)
}

/// The hard reserves of a list of disabled ids, in the order of the ids.
pub open spec fn hard_reserves(ids: Seq<i32>, catalog: Seq<RaidItem>) -> Seq<Item> {
    ids.filter_map(hard_reserve_with(catalog))
}

/// What `lookup` finds lies in the catalog under the id asked for, and
/// nothing before it does; where it finds nothing, no entry has that id.
pub proof fn lemma_lookup(catalog: Seq<RaidItem>, id: i32)
    ensures
        match lookup(catalog, id) {
            Some(entry) => exists|i: int|
                0 <= i < catalog.len() && #[trigger] catalog[i] == entry && entry.id == id
                    && forall|j: int| 0 <= j < i ==> (#[trigger] catalog[j]).id != id,
            None => forall|j: int| 0 <= j < catalog.len() ==> (#[trigger] catalog[j]).id != id,
        },
    decreases catalog.len(),
{
    if catalog.len() == 0 {
    } else if catalog[0].id == id {
        assert(catalog[0] == catalog[0]);
    } else {
        let rest = catalog.drop_first();
        lemma_lookup(rest, id);
        match lookup(rest, id) {
            Some(entry) => {
                let i = choose|i: int|
                    0 <= i < rest.len() && #[trigger] rest[i] == entry && entry.id == id
                        && forall|j: int| 0 <= j < i ==> (#[trigger] rest[j]).id != id;
                assert(catalog[i + 1] == entry);
                assert forall|j: int| 0 <= j < i + 1 implies (#[trigger] catalog[j]).id != id by {
                    if j > 0 {
                        assert(rest[j - 1].id != id);
                    }
                }
            },
            None => {
                assert forall|j: int| 0 <= j < catalog.len() implies (#[trigger] catalog[j]).id
                    != id by {
                    if j > 0 {
                        assert(rest[j - 1].id != id);
                    }
                }
            },
        }
    }
}

/// Searches the catalog from the front for the entry with the given id.
pub fn find_raid_item(raid_items: &[RaidItem], id: i32) -> (found: Option<RaidItem>)
    ensures
        found == lookup(raid_items@, id),
{
    let mut k: usize = 0;
    assert(raid_items@.skip(0) =~= raid_items@);
    while k < raid_items.len()
        invariant
            k <= raid_items.len(),
            lookup(raid_items@, id) == lookup(raid_items@.skip(k as int), id),
        decreases raid_items.len() - k,
    {
        let entry = raid_items[k];
        if entry.id == id {
            return Some(entry);
        }
        assert(raid_items@.skip(k as int).drop_first() =~= raid_items@.skip(k + 1));
        k += 1;
    }
    None
}

/// Derives the soft reserves: one for each reservation that names no item or
/// an item of the catalog, in the order of the reservations.
pub fn get_soft_reserves(reservations: &Vec<ReservationData>, raid_items: &[RaidItem]) -> (result:
    Vec<SoftReserve>)
    ensures
        soft_reserve_views(result@) == soft_reserves(
            reservation_views(reservations@),
            raid_items@,
        ),
{
    let mut result: Vec<SoftReserve> = Vec::new();
    let ghost rs = reservation_views(reservations@);
    let ghost emit = soft_reserve_with(raid_items@);
    let mut i: usize = 0;
    while i < reservations.len()
        invariant
            i <= reservations.len(),
            rs == reservation_views(reservations@),
            emit == soft_reserve_with(raid_items@),
            soft_reserve_views(result@) =~= rs.take(i as int).filter_map(emit),
        decreases reservations.len() - i,
    {
        let reservation = &reservations[i];
        proof {
            rs.lemma_filter_map_take_succ(emit, i as int);
            assert(rs[i as int] == reservation@);
        }
        let ghost before = result@;
        match reservation.raid_item_id {
            None => {
                let items = vec![Item { id: 0, quality: 0 }];
                assert(items@ =~= seq![placeholder()]);
                result.push(SoftReserve { name: reservation.character.name.clone(), items });
                assert(soft_reserve_views(result@) =~= soft_reserve_views(before).push(
                    result@.last()@,
                ));
            },
            Some(item_id) => {
                if let Some(raid_item) = find_raid_item(raid_items, item_id) {
                    let items = vec![
                        Item { id: raid_item.turtle_db_item_id, quality: raid_item.quality },
                    ];
                    assert(items@ =~= seq![project(raid_item)]);
                    result.push(SoftReserve { name: reservation.character.name.clone(), items });
                    assert(soft_reserve_views(result@) =~= soft_reserve_views(before).push(
                        result@.last()@,
                    ));
                }
            },
        }
        i += 1;
    }
    assert(rs.take(i as int) =~= rs);
    result
}

/// Derives the hard reserves: one for each disabled id that the catalog
/// knows, in the order of the ids.
pub fn get_hard_reserves(reservations: &Vec<i32>, raid_items: &[RaidItem]) -> (result: Vec<Item>)
    ensures
        result@ == hard_reserves(reservations@, raid_items@),
{
    let mut result: Vec<Item> = Vec::new();
    let ghost emit = hard_reserve_with(raid_items@);
    let mut i: usize = 0;
    while i < reservations.len()
        invariant
            i <= reservations.len(),
            emit == hard_reserve_with(raid_items@),
            result@ =~= reservations@.take(i as int).filter_map(emit),
        decreases reservations.len() - i,
    {
        let item_id = reservations[i];
        proof {
            reservations@.lemma_filter_map_take_succ(emit, i as int);
        }
        if let Some(raid_item) = find_raid_item(raid_items, item_id) {
            result.push(Item { id: raid_item.turtle_db_item_id, quality: raid_item.quality });
        }
        i += 1;
    }
    assert(reservations@.take(i as int) =~= reservations@);
    result
}

} // verus!
