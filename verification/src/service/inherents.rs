//! The data that every block inherits from the moment it is authored in.

use vstd::prelude::*;

verus! {

/// What a block says of its moment.
#[derive(Debug, Clone, Copy, PartialEq, Eq, Structural)]
pub struct InherentData {
    /// The milliseconds since the Unix epoch.
    pub timestamp: u64,
    /// The authoring slot.
    pub slot: u64,
}

/// The slot that a moment falls in, both the moment and the length of a slot
/// counted in milliseconds.
pub open spec fn slot_at(timestamp: int, slot_duration: int) -> int
    recommends
        slot_duration > 0,
{
    timestamp / slot_duration
}

/// `sp_timestamp::InherentDataProvider::from_system_time`, read by `timestamp`
/// and `as_millis`: the milliseconds since the Unix epoch by the clock of the
/// machine. Nothing is claimed of the result, which is up to that clock. A
/// clock that stands before the epoch makes the call panic.
#[verifier::external_body]
fn system_time() -> u64 {
    sp_timestamp::InherentDataProvider::from_system_time().timestamp().as_millis()
}

/// `sp_consensus_aura::inherents::InherentDataProvider::from_timestamp_and_slot_duration`:
/// the slot is the quotient of the timestamp and the length of a slot, rounded
/// down. The call panics for slots of no length.
#[verifier::external_body]
fn aura_slot(timestamp: u64, slot_duration: u64) -> (slot: u64)
    requires
        slot_duration > 0,
    ensures
        slot == slot_at(timestamp as int, slot_duration as int),
{
    let provider = sp_consensus_aura::inherents::InherentDataProvider::from_timestamp_and_slot_duration(
        sp_timestamp::Timestamp::new(timestamp),
        sp_consensus_aura::SlotDuration::from_millis(slot_duration),
    );
    u64::from(*provider)
}

/// The inherent data of a block that is authored at `timestamp`.
pub fn inherent_data_at(timestamp: u64, slot_duration: u64) -> (data: InherentData)
    requires
        slot_duration > 0,
    ensures
        data.timestamp == timestamp,
        data.slot == slot_at(timestamp as int, slot_duration as int),
{
    InherentData { timestamp, slot: aura_slot(timestamp, slot_duration) }
}

/// Whether the clock of the machine may be read as `timestamp`. As nothing is
/// claimed of the clock, only a reading shows this.
pub closed spec fn is_clock_reading(timestamp: u64) -> bool {
    call_ensures(system_time, (), timestamp)
}

/// The inherent data of a block that is authored now: the clock of the machine as
/// it is read, and the slot of that moment. Which moment it is, is up to the
/// clock.
pub fn create_inherent_data_providers(slot_duration: u64) -> (data: InherentData)
    requires
        slot_duration > 0,
    ensures
        is_clock_reading(data.timestamp),
        data.slot == slot_at(data.timestamp as int, slot_duration as int),
{
    inherent_data_at(system_time(), slot_duration)
}

/// A moment lies within its slot: not before the slot starts, and before the
/// next one does.
pub proof fn law_moment_lies_in_its_slot(timestamp: int, slot_duration: int)
    requires
        slot_duration > 0,
    ensures
        slot_at(timestamp, slot_duration) * slot_duration <= timestamp,
        timestamp < (slot_at(timestamp, slot_duration) + 1) * slot_duration,
{
    vstd::arithmetic::div_mod::lemma_fundamental_div_mod(timestamp, slot_duration);
    vstd::arithmetic::div_mod::lemma_mod_bound(timestamp, slot_duration);
    assert((timestamp / slot_duration + 1) * slot_duration == slot_duration * (timestamp
        / slot_duration) + slot_duration) by (nonlinear_arith);
    assert((timestamp / slot_duration) * slot_duration == slot_duration * (timestamp
        / slot_duration)) by (nonlinear_arith);
}

/// Time never goes back to an earlier slot.
pub proof fn law_slots_follow_time(earlier: int, later: int, slot_duration: int)
    requires
        slot_duration > 0,
        earlier <= later,
    ensures
        slot_at(earlier, slot_duration) <= slot_at(later, slot_duration),
{
    vstd::arithmetic::div_mod::lemma_div_is_ordered(earlier, later, slot_duration);
}

/// The length of a slot after a moment, the next slot runs.
pub proof fn law_next_slot_comes_one_duration_later(timestamp: int, slot_duration: int)
    requires
        slot_duration > 0,
    ensures
        slot_at(timestamp + slot_duration, slot_duration) == slot_at(timestamp, slot_duration) + 1,
{
    vstd::arithmetic::div_mod::lemma_div_plus_one(timestamp, slot_duration);
}

/// The inherent data of a moment tells that moment, and the slot that has begun
/// by then and has not ended.
pub proof fn law_inherent_data_tells_its_moment(
    timestamp: u64,
    slot_duration: u64,
    data: InherentData,
)
    requires
        slot_duration > 0,
        call_ensures(inherent_data_at, (timestamp, slot_duration), data),
    ensures
        data.timestamp == timestamp,
        data.slot * slot_duration <= timestamp,
        timestamp < (data.slot + 1) * slot_duration,
{
    law_moment_lies_in_its_slot(timestamp as int, slot_duration as int);
}

/// A reading of the clock is what the clock was read as, and nothing else.
proof fn lemma_clock_reading_was_read(timestamp: u64)
    ensures
        is_clock_reading(timestamp) <==> call_ensures(system_time, (), timestamp),
{
}

/// A block that is authored now tells a moment that was read off the clock, and
/// the slot that runs at that moment.
pub proof fn law_inherent_data_of_now_is_read_off_the_clock(
    slot_duration: u64,
    data: InherentData,
)
    requires
        slot_duration > 0,
        call_ensures(create_inherent_data_providers, (slot_duration,), data),
    ensures
        is_clock_reading(data.timestamp),
        data.slot * slot_duration <= data.timestamp,
        data.timestamp < (data.slot + 1) * slot_duration,
{
    lemma_clock_reading_was_read(data.timestamp);
    law_moment_lies_in_its_slot(data.timestamp as int, slot_duration as int);
}

} // verus!
