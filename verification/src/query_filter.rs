//! The scene-query filter that a vehicle step hands to the ray casts of its
//! wheels, assembled from the plain values that come from the caller.

use vstd::prelude::*;

verus! {

/// The union of the bits of every flag that `rapier3d`'s `QueryFilterFlags`
/// defines: excluding fixed, kinematic and dynamic bodies, sensors and solids.
pub open spec fn known_query_filter_bits() -> u32 {
    0x1f
}

/// Whether `bits` names only flags that `QueryFilterFlags` defines.
pub open spec fn names_known_flags(bits: u32) -> bool {
    bits & !known_query_filter_bits() == 0
}

/// `rapier3d::pipeline::QueryFilterFlags::from_bits`, handed back as the bits of
/// the flags it built. The flags are a `bitflags` type whose defined bits are
/// `known_query_filter_bits`; `from_bits` builds a value holding exactly `bits`
/// when no bit outside them is set, and returns `None` otherwise.
#[verifier::external_body]
fn query_filter_flags_from_bits(bits: u32) -> (flags: Option<u32>)
    ensures
        flags == (if names_known_flags(bits) { Some(bits) } else { None::<u32> }),
{
    match rapier3d::pipeline::QueryFilterFlags::from_bits(bits) {
        Some(f) => Some(f.bits()),
        None => None,
    }
}

/// The flags of a vehicle's scene query: the given bits when every one of them
/// names a known flag, and no flag at all otherwise.
pub fn filter_flags_or_empty(bits: u32) -> (flags: u32)
    ensures
        flags == (if names_known_flags(bits) { bits } else { 0 }),
        flags == (if bits & !0x1fu32 == 0 { bits } else { 0 }),
{
    match query_filter_flags_from_bits(bits) {
        Some(f) => f,
        None => 0,
    }
}

/// Splits collision groups packed in 32 bits: the 16 high bits are the
/// groups the querying shape is a member of, the 16 low bits the groups it
/// interacts with.
pub fn unpack_interaction_groups(packed: u32) -> (groups: (u32, u32))
    ensures
        groups.0 == packed / 0x1_0000,
        groups.1 == packed % 0x1_0000,
        groups.0 < 0x1_0000,
        groups.1 < 0x1_0000,
        groups.0 * 0x1_0000 + groups.1 == packed,
{
    let memberships: u32 = packed >> 16u32;
    let filter: u32 = packed & 0xffffu32;
    assert(memberships == packed / 0x1_0000u32 && filter == packed % 0x1_0000u32)
        by (bit_vector)
        requires
            memberships == packed >> 16u32,
            filter == packed & 0xffffu32,
    ;
    (memberships, filter)
}

/// A flag value names only known flags exactly when it has no bit set above
/// the five defined flags (excluding fixed, kinematic, dynamic, sensors,
/// solids); every such value names known flags, and every value with a higher
/// bit set does not.
pub proof fn lemma_known_flags_are_the_low_five_bits(bits: u32)
    ensures
        names_known_flags(bits) <==> bits & !0x1fu32 == 0,
        names_known_flags(bits) <==> bits < 0x20,
{
    assert(bits & !0x1fu32 == 0 <==> bits < 0x20) by (bit_vector);
}

/// The groups of a vehicle's filter: with no packed groups there are none,
/// and packed groups `p` always give the high half of `p` as the memberships
/// and the low half as the filter, so that packing them back gives `p`.
pub proof fn lemma_groups_are_high_then_low(p: u32)
    ensures
        groups_of(None) == None::<(u32, u32)>,
        groups_of(Some(p)) == Some(((p / 0x1_0000) as u32, (p % 0x1_0000) as u32)),
        groups_of(Some(p)) matches Some(g) && g.0 * 0x1_0000 + g.1 == p && g.0 < 0x1_0000 && g.1 < 0x1_0000,
{
}

/// The plain values of the filter used by one vehicle step.
pub struct VehicleQueryFilter {
    /// The bits of the `QueryFilterFlags`.
    pub flags: u32,
    /// The (memberships, filter) collision groups, if the caller gave any.
    pub groups: Option<(u32, u32)>,
    /// The (index, generation) of the rigid body whose colliders the query
    /// skips: the vehicle's own chassis.
    pub exclude_rigid_body: Option<(u32, u32)>,
}

/// The groups of the filter: the unpacked groups if some were given.
pub open spec fn groups_of(packed: Option<u32>) -> Option<(u32, u32)> {
    match packed {
        Some(p) => Some(((p / 0x1_0000) as u32, (p % 0x1_0000) as u32)),
        None => None,
    }
}

/// Assembles the filter of a vehicle step that skips the chassis `chassis`.
pub fn vehicle_query_filter(filter_flags: u32, filter_groups: Option<u32>, chassis: (u32, u32)) -> (filter: VehicleQueryFilter)
    ensures
        filter.flags == (if names_known_flags(filter_flags) { filter_flags } else { 0 }),
        filter.flags == (if filter_flags & !0x1fu32 == 0 { filter_flags } else { 0 }),
        filter.groups == groups_of(filter_groups),
        filter_groups matches Some(p) ==> filter.groups == Some(((p / 0x1_0000) as u32, (p % 0x1_0000) as u32)),
        filter_groups is None ==> filter.groups is None,
        filter.exclude_rigid_body == Some(chassis),
{
    let flags = filter_flags_or_empty(filter_flags);
    let groups = match filter_groups {
        Some(p) => Some(unpack_interaction_groups(p)),
        None => None,
    };
    VehicleQueryFilter { flags, groups, exclude_rigid_body: Some(chassis) }
}

} // verus!
