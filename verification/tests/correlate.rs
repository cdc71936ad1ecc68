use raid_reserves::correlate::{find_raid_item, get_hard_reserves, get_soft_reserves};
use raid_reserves::model::{Character, Item, RaidItem, ReservationData, SoftReserve};

fn reservation(name: &str, raid_item_id: Option<i32>) -> ReservationData {
    ReservationData { character: Character { name: name.to_string() }, raid_item_id }
}

fn soft(name: &str, id: i32, quality: i32) -> SoftReserve {
    SoftReserve { name: name.to_string(), items: vec![Item { id, quality }] }
}

fn catalog() -> Vec<RaidItem> {
    vec![
        RaidItem { id: 5, turtle_db_item_id: 1234, quality: 4 },
        RaidItem { id: 6, turtle_db_item_id: 2345, quality: 3 },
        RaidItem { id: 7, turtle_db_item_id: 3456, quality: 5 },
    ]
}

#[test]
fn soft_reserves_of_named_and_unnamed_item() {
    let reservations = vec![reservation("A", Some(5)), reservation("B", None)];
    let catalog = vec![RaidItem { id: 5, turtle_db_item_id: 1234, quality: 4 }];
    let got = get_soft_reserves(&reservations, &catalog);
    assert_eq!(got, vec![soft("A", 1234, 4), soft("B", 0, 0)]);
}

#[test]
fn hard_reserves_drop_unknown_id() {
    let catalog = vec![RaidItem { id: 5, turtle_db_item_id: 1234, quality: 4 }];
    let got = get_hard_reserves(&vec![5, 99], &catalog);
    assert_eq!(got, vec![Item { id: 1234, quality: 4 }]);
}

#[test]
fn absent_reference_gives_placeholder_alone() {
    let got = get_soft_reserves(&vec![reservation("Solo", None)], &catalog());
    assert_eq!(got.len(), 1);
    assert_eq!(got[0].name, "Solo");
    assert_eq!(got[0].items, vec![Item { id: 0, quality: 0 }]);
}

#[test]
fn absent_reference_needs_no_catalog() {
    let got = get_soft_reserves(&vec![reservation("Solo", None)], &[]);
    assert_eq!(got, vec![soft("Solo", 0, 0)]);
}

#[test]
fn matched_reference_projects_the_entry() {
    let got = get_soft_reserves(&vec![reservation("Mira", Some(7))], &catalog());
    assert_eq!(got.len(), 1);
    assert_eq!(got[0].name, "Mira");
    assert_eq!(got[0].items.len(), 1);
    assert_eq!(got[0].items[0], Item { id: 3456, quality: 5 });
}

#[test]
fn unmatched_reference_is_dropped() {
    let reservations = vec![
        reservation("A", Some(5)),
        reservation("B", Some(42)),
        reservation("C", None),
        reservation("D", Some(-1)),
        reservation("E", Some(6)),
    ];
    let got = get_soft_reserves(&reservations, &catalog());
    assert_eq!(got.len(), reservations.len() - 2);
    assert_eq!(got, vec![soft("A", 1234, 4), soft("C", 0, 0), soft("E", 2345, 3)]);
}

#[test]
fn all_unmatched_gives_nothing() {
    let reservations = vec![reservation("A", Some(1)), reservation("B", Some(2))];
    assert_eq!(get_soft_reserves(&reservations, &catalog()), vec![]);
    assert_eq!(get_soft_reserves(&reservations, &[]), vec![]);
}

#[test]
fn no_reservations_no_soft_reserves() {
    assert_eq!(get_soft_reserves(&vec![], &catalog()), vec![]);
}

#[test]
fn soft_reserves_keep_the_order_of_reservations() {
    let reservations = vec![
        reservation("Z", Some(7)),
        reservation("A", Some(5)),
        reservation("M", Some(6)),
        reservation("A", Some(7)),
    ];
    let got = get_soft_reserves(&reservations, &catalog());
    assert_eq!(
        got,
        vec![soft("Z", 3456, 5), soft("A", 1234, 4), soft("M", 2345, 3), soft("A", 3456, 5)]
    );
}

#[test]
fn each_known_disabled_id_gives_one_hard_reserve() {
    let got = get_hard_reserves(&vec![7, 100, 5, 7, 0, 6], &catalog());
    assert_eq!(
        got,
        vec![
            Item { id: 3456, quality: 5 },
            Item { id: 1234, quality: 4 },
            Item { id: 3456, quality: 5 },
            Item { id: 2345, quality: 3 },
        ]
    );
}

#[test]
fn no_disabled_ids_no_hard_reserves() {
    assert_eq!(get_hard_reserves(&vec![], &catalog()), vec![]);
    assert_eq!(get_hard_reserves(&vec![5, 6], &[]), vec![]);
}

#[test]
fn first_catalog_entry_with_the_id_wins() {
    let catalog = vec![
        RaidItem { id: 5, turtle_db_item_id: 1, quality: 1 },
        RaidItem { id: 5, turtle_db_item_id: 2, quality: 2 },
    ];
    assert_eq!(find_raid_item(&catalog, 5), Some(catalog[0]));
    assert_eq!(get_hard_reserves(&vec![5], &catalog), vec![Item { id: 1, quality: 1 }]);
    assert_eq!(
        get_soft_reserves(&vec![reservation("A", Some(5))], &catalog),
        vec![soft("A", 1, 1)]
    );
}

#[test]
fn find_raid_item_misses_unknown_id() {
    assert_eq!(find_raid_item(&catalog(), 8), None);
    assert_eq!(find_raid_item(&[], 5), None);
    assert_eq!(find_raid_item(&catalog(), 6), Some(catalog()[1]));
}

#[test]
fn correlation_repeats() {
    let reservations = vec![reservation("A", Some(5)), reservation("B", Some(9))];
    let first = get_soft_reserves(&reservations, &catalog());
    let second = get_soft_reserves(&reservations, &catalog());
    assert_eq!(first, second);
    assert_eq!(get_hard_reserves(&vec![6, 5], &catalog()), get_hard_reserves(&vec![6, 5], &catalog()));
}
