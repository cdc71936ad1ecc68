//! Packing the two derived lists and the event's metadata into one record.

use vstd::prelude::*;
use crate::correlate::{get_hard_reserves, get_soft_reserves, hard_reserves, soft_reserves};
use crate::model::{
    Metadata, MetadataView, Output, OutputView, RaidResponse, RaidView, RaidresResponse,
    RaidresView,
};

verus! {

/// The output for an event: its id, the raid's number and name, and the
/// reserves derived from the event's reservations and disabled ids against
/// the raid's catalog.
pub open spec fn output_for(id: Seq<char>, event: RaidresView, raid: RaidView) -> OutputView {
    OutputView {
        metadata: MetadataView { id, instance: event.raid_id, instances: seq![raid.name] },
        softreserves: soft_reserves(event.reservations, raid.raid_items),
        hardreserves: hard_reserves(event.disabled_raid_item_ids, raid.raid_items),
    }
}

/// Builds the output record of an event from the two upstream records.
pub fn assemble_output(id: String, event: &RaidresResponse, raid: RaidResponse) -> (out: Output)
    ensures
        out@ == output_for(id@, event@, raid@),
{
    let RaidResponse { name, raid_items } = raid;
    let softreserves = get_soft_reserves(&event.reservations, raid_items.as_slice());
    let hardreserves = get_hard_reserves(&event.disabled_raid_item_ids, raid_items.as_slice());
    let ghost raid_name = name@;
    let instances = vec![name];
    assert(instances@.map_values(|s: String| s@) =~= seq![raid_name]);
    Output {
        metadata: Metadata { id, instance: event.raid_id, instances },
        softreserves,
        hardreserves,
    }
}

} // verus!
