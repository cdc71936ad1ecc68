//! The records that come from upstream, the records that go out, and the
//! mathematical view of each.

use vstd::prelude::*;

verus! {

/// One entry of a raid's item catalog.
#[derive(Clone, Copy, Debug, PartialEq, Eq, Structural)]
pub struct RaidItem {
    /// Identifier that is meaningful within one raid's catalog only.
    pub id: i32,
    /// Identifier under which the item is displayed.
    pub turtle_db_item_id: i32,
    /// Quality tier.
    pub quality: i32,
}

/// An item as it is reported: display identifier and quality tier.
#[derive(Clone, Copy, Debug, PartialEq, Eq, Structural)]
pub struct Item {
    pub id: i32,
    pub quality: i32,
}

/// The participant who made a reservation.
#[derive(Clone, Debug, PartialEq, Eq)]
pub struct Character {
    pub name: String,
}

/// A participant's reservation; `raid_item_id` is `None` when the participant
/// named no item.
#[derive(Clone, Debug, PartialEq, Eq)]
pub struct ReservationData {
    pub character: Character,
    pub raid_item_id: Option<i32>,
}

/// What a reservation is, as plain values.
pub struct ReservationView {
    pub name: Seq<char>,
    pub raid_item_id: Option<i32>,
}

impl View for ReservationData {
    type V = ReservationView;

    open spec fn view(&self) -> ReservationView {
        ReservationView { name: self.character.name@, raid_item_id: self.raid_item_id }
    }
}

/// The views of a sequence of reservations, in the same order.
pub open spec fn reservation_views(rs: Seq<ReservationData>) -> Seq<ReservationView> {
    rs.map_values(|r: ReservationData| r@)
}

/// The event record: the raid it belongs to, its reservations and the ids of
/// the catalog items that are excluded from soft reserving.
#[derive(Clone, Debug, PartialEq, Eq)]
pub struct RaidresResponse {
    pub raid_id: i32,
    pub reservations: Vec<ReservationData>,
    pub disabled_raid_item_ids: Vec<i32>,
}

/// What an event record is, as plain values.
pub struct RaidresView {
    pub raid_id: i32,
    pub reservations: Seq<ReservationView>,
    pub disabled_raid_item_ids: Seq<i32>,
}

impl View for RaidresResponse {
    type V = RaidresView;

    open spec fn view(&self) -> RaidresView {
        RaidresView {
            raid_id: self.raid_id,
            reservations: reservation_views(self.reservations@),
            disabled_raid_item_ids: self.disabled_raid_item_ids@,
        }
    }
}

/// The raid record: display name and item catalog.
#[derive(Clone, Debug, PartialEq, Eq)]
pub struct RaidResponse {
    pub name: String,
    pub raid_items: Vec<RaidItem>,
}

/// What a raid record is, as plain values.
pub struct RaidView {
    pub name: Seq<char>,
    pub raid_items: Seq<RaidItem>,
}

impl View for RaidResponse {
    type V = RaidView;

    open spec fn view(&self) -> RaidView {
        RaidView { name: self.name@, raid_items: self.raid_items@ }
    }
}

/// A participant's soft reserve. The correlation always fills `items` with
/// exactly one item.
#[derive(Clone, Debug, PartialEq, Eq)]
pub struct SoftReserve {
    pub name: String,
    pub items: Vec<Item>,
}

/// What a soft reserve is, as plain values.
pub struct SoftReserveView {
    pub name: Seq<char>,
    pub items: Seq<Item>,
}

impl View for SoftReserve {
    type V = SoftReserveView;

    open spec fn view(&self) -> SoftReserveView {
        SoftReserveView { name: self.name@, items: self.items@ }
    }
}

/// The views of a sequence of soft reserves, in the same order.
pub open spec fn soft_reserve_views(rs: Seq<SoftReserve>) -> Seq<SoftReserveView> {
    rs.map_values(|r: SoftReserve| r@)
}

/// Where the output comes from: the event, the raid's number and the raid's
/// display name as the only entry of `instances`.
#[derive(Clone, Debug, PartialEq, Eq)]
pub struct Metadata {
    pub id: String,
    pub instance: i32,
    pub instances: Vec<String>,
}

/// What the metadata are, as plain values.
pub struct MetadataView {
    pub id: Seq<char>,
    pub instance: i32,
    pub instances: Seq<Seq<char>>,
}

impl View for Metadata {
    type V = MetadataView;

    open spec fn view(&self) -> MetadataView {
        MetadataView {
            id: self.id@,
            instance: self.instance,
            instances: self.instances@.map_values(|s: String| s@),
        }
    }
}

/// The record that the endpoint reports.
#[derive(Clone, Debug, PartialEq, Eq)]
pub struct Output {
    pub metadata: Metadata,
    pub softreserves: Vec<SoftReserve>,
    pub hardreserves: Vec<Item>,
}

/// What an output record is, as plain values.
pub struct OutputView {
    pub metadata: MetadataView,
    pub softreserves: Seq<SoftReserveView>,
    pub hardreserves: Seq<Item>,
}

impl View for Output {
    type V = OutputView;

    open spec fn view(&self) -> OutputView {
        OutputView {
            metadata: self.metadata@,
            softreserves: soft_reserve_views(self.softreserves@),
            hardreserves: self.hardreserves@,
        }
    }
}

} // verus!
