//! A ray-cast vehicle controller of `rapier3d`, with index-checked access to
//! its wheels and its axis settings.

use vstd::prelude::*;
use rapier3d::control::{DynamicRayCastVehicleController, Wheel};
use crate::handle::{flat_handle, handle_parts, handle_parts_of, lemma_packed_of_parts, lemma_parts_of_packed, packed_handle};
use crate::query_filter::{groups_of, names_known_flags, vehicle_query_filter, VehicleQueryFilter};

verus! {

#[verifier::external_type_specification]
#[verifier::external_body]
pub struct ExDynamicRayCastVehicleController(DynamicRayCastVehicleController);

#[verifier::external_type_specification]
#[verifier::external_body]
pub struct ExWheel(Wheel);

/// What the ray cast of a wheel last found.
pub struct WheelContact {
    /// Whether the wheel touches the ground.
    pub in_contact: bool,
    /// The (index, generation) of the collider under the wheel, if any.
    pub ground_object: Option<(u32, u32)>,
}

/// The wheels a controller holds, in the order they were added.
pub uninterp spec fn controller_wheels(c: DynamicRayCastVehicleController) -> Seq<Wheel>;

/// What `Wheel::raycast_info` holds of a wheel's contact: its `is_in_contact`
/// flag and its `ground_object` handle as raw parts.
pub uninterp spec fn wheel_contact(w: Wheel) -> WheelContact;

/// The controller's `index_up_axis` field.
pub uninterp spec fn controller_up_axis(c: DynamicRayCastVehicleController) -> usize;

/// The controller's `index_forward_axis` field.
pub uninterp spec fn controller_forward_axis(c: DynamicRayCastVehicleController) -> usize;

/// The (index, generation) of the controller's `chassis` field.
pub uninterp spec fn controller_chassis(c: DynamicRayCastVehicleController) -> (u32, u32);

/// `DynamicRayCastVehicleController::new` on the rigid-body handle rebuilt by
/// `RigidBodyHandle::from_raw_parts`: the controller starts with no wheel, up
/// axis 1, forward axis 0, and the given chassis.
#[verifier::external_body]
fn new_controller(index: u32, generation: u32) -> (c: DynamicRayCastVehicleController)
    ensures
        controller_wheels(c) == Seq::<Wheel>::empty(),
        controller_up_axis(c) == 1,
        controller_forward_axis(c) == 0,
        controller_chassis(c) == (index, generation),
{
    DynamicRayCastVehicleController::new(rapier3d::dynamics::RigidBodyHandle::from_raw_parts(index, generation))
}

/// `DynamicRayCastVehicleController::wheels`, of which only the length is
/// handed back.
#[verifier::external_body]
fn wheels_len(c: &DynamicRayCastVehicleController) -> (n: usize)
    ensures
        n == controller_wheels(*c).len(),
{
    c.wheels().len()
}

/// `Wheel::raycast_info` of the wheel at `i` in `wheels()`, with its
/// `is_in_contact` flag and its `ground_object` handle as raw parts. A wheel
/// starts with neither; a vehicle step first clears every wheel's flag, and
/// its ray cast sets the flag only together with the ground object it hit, so
/// a wheel in contact always has a ground object. The converse is left
/// unsaid: a step that panics after clearing the flags (a forward axis
/// of 3 or more makes `Vector::ith` panic there) leaves the old ground
/// objects in place.
#[verifier::external_body]
fn wheel_contact_at(c: &DynamicRayCastVehicleController, i: usize) -> (w: WheelContact)
    requires
        i < controller_wheels(*c).len(),
    ensures
        w == wheel_contact(controller_wheels(*c)[i as int]),
        w.in_contact ==> w.ground_object is Some,
{
    let info = c.wheels()[i].raycast_info();
    WheelContact {
        in_contact: info.is_in_contact,
        ground_object: match info.ground_object {
            Some(h) => Some(h.into_raw_parts()),
            None => None,
        },
    }
}

/// The wheel at `i` in `DynamicRayCastVehicleController::wheels`.
#[verifier::external_body]
fn wheel_ref(c: &DynamicRayCastVehicleController, i: usize) -> (w: &Wheel)
    requires
        i < controller_wheels(*c).len(),
    ensures
        *w == controller_wheels(*c)[i as int],
{
    &c.wheels()[i]
}

/// The wheel at `i` in `DynamicRayCastVehicleController::wheels_mut`: it is
/// that wheel, and what it holds when the borrow ends is what the controller
/// holds at `i`; the other wheels, their number, and the controller's own
/// fields are out of its reach.
#[verifier::external_body]
fn wheel_mut_ref(c: &mut DynamicRayCastVehicleController, i: usize) -> (w: &mut Wheel)
    requires
        i < controller_wheels(*old(c)).len(),
    ensures
        *w == controller_wheels(*old(c))[i as int],
        controller_wheels(*final(c)) == controller_wheels(*old(c)).update(i as int, *final(w)),
        controller_up_axis(*final(c)) == controller_up_axis(*old(c)),
        controller_forward_axis(*final(c)) == controller_forward_axis(*old(c)),
        controller_chassis(*final(c)) == controller_chassis(*old(c)),
{
    &mut c.wheels_mut()[i]
}

/// Reads the `index_up_axis` field.
#[verifier::external_body]
fn read_up_axis(c: &DynamicRayCastVehicleController) -> (axis: usize)
    ensures
        axis == controller_up_axis(*c),
{
    c.index_up_axis
}

/// Writes the `index_up_axis` field; the other fields keep their values.
#[verifier::external_body]
fn write_up_axis(c: &mut DynamicRayCastVehicleController, axis: usize)
    ensures
        controller_up_axis(*final(c)) == axis,
        controller_forward_axis(*final(c)) == controller_forward_axis(*old(c)),
        controller_wheels(*final(c)) == controller_wheels(*old(c)),
        controller_chassis(*final(c)) == controller_chassis(*old(c)),
{
    c.index_up_axis = axis;
}

/// Reads the `index_forward_axis` field.
#[verifier::external_body]
fn read_forward_axis(c: &DynamicRayCastVehicleController) -> (axis: usize)
    ensures
        axis == controller_forward_axis(*c),
{
    c.index_forward_axis
}

/// Writes the `index_forward_axis` field; the other fields keep their values.
#[verifier::external_body]
fn write_forward_axis(c: &mut DynamicRayCastVehicleController, axis: usize)
    ensures
        controller_forward_axis(*final(c)) == axis,
        controller_up_axis(*final(c)) == controller_up_axis(*old(c)),
        controller_wheels(*final(c)) == controller_wheels(*old(c)),
        controller_chassis(*final(c)) == controller_chassis(*old(c)),
{
    c.index_forward_axis = axis;
}

/// Reads the `chassis` field as the raw parts of the handle.
#[verifier::external_body]
fn read_chassis(c: &DynamicRayCastVehicleController) -> (parts: (u32, u32))
    ensures
        parts == controller_chassis(*c),
{
    c.chassis.into_raw_parts()
}

/// What the bindings see of a vehicle controller.
pub struct VehicleView {
    pub wheels: Seq<Wheel>,
    pub up_axis: usize,
    pub forward_axis: usize,
    pub chassis: (u32, u32),
}

impl VehicleView {
    /// The vehicle with its up axis set to `axis`.
    pub open spec fn with_up_axis(self, axis: usize) -> VehicleView {
        VehicleView { up_axis: axis, ..self }
    }

    /// The vehicle with its forward axis set to `axis`.
    pub open spec fn with_forward_axis(self, axis: usize) -> VehicleView {
        VehicleView { forward_axis: axis, ..self }
    }

    /// The vehicle with the wheel at `i` replaced by `w`.
    pub open spec fn with_wheel(self, i: int, w: Wheel) -> VehicleView {
        VehicleView { wheels: self.wheels.update(i, w), ..self }
    }

    /// Whether the wheel at `i` exists and touches the ground.
    pub open spec fn wheel_in_contact(self, i: int) -> bool {
        0 <= i < self.wheels.len() && wheel_contact(self.wheels[i]).in_contact
    }

    /// The packed handle of the collider under the wheel at `i`, if the wheel
    /// exists and stands on one.
    pub open spec fn wheel_ground(self, i: int) -> Option<u64> {
        if 0 <= i < self.wheels.len() {
            match wheel_contact(self.wheels[i]).ground_object {
                Some(h) => Some(packed_handle(h.0, h.1)),
                None => None,
            }
        } else {
            None
        }
    }
}

/// The view of a controller of `rapier3d`.
pub open spec fn view_of(c: DynamicRayCastVehicleController) -> VehicleView {
    VehicleView {
        wheels: controller_wheels(c),
        up_axis: controller_up_axis(c),
        forward_axis: controller_forward_axis(c),
        chassis: controller_chassis(c),
    }
}

/// The view of a controller reads its fields as they are: the wheels in the
/// order they were added, the up axis from `index_up_axis`, the forward axis
/// from `index_forward_axis`, and the chassis handle's raw parts.
pub proof fn lemma_view_reads_the_fields(c: DynamicRayCastVehicleController)
    ensures
        view_of(c).wheels == controller_wheels(c),
        view_of(c).up_axis == controller_up_axis(c),
        view_of(c).forward_axis == controller_forward_axis(c),
        view_of(c).chassis == controller_chassis(c),
{
}

/// Writing the up axis and reading it back gives the value written, and the
/// forward axis, the wheels and the chassis stay as they were.
pub proof fn lemma_up_axis_read_after_write(v: VehicleView, axis: usize)
    ensures
        v.with_up_axis(axis).up_axis == axis,
        v.with_up_axis(axis).forward_axis == v.forward_axis,
        v.with_up_axis(axis).wheels == v.wheels,
        v.with_up_axis(axis).chassis == v.chassis,
{
}

/// Writing the forward axis and reading it back gives the value written, and
/// the up axis, the wheels and the chassis stay as they were.
pub proof fn lemma_forward_axis_read_after_write(v: VehicleView, axis: usize)
    ensures
        v.with_forward_axis(axis).forward_axis == axis,
        v.with_forward_axis(axis).up_axis == v.up_axis,
        v.with_forward_axis(axis).wheels == v.wheels,
        v.with_forward_axis(axis).chassis == v.chassis,
{
}

/// The two axis settings are independent: writing them in either order gives
/// the same vehicle.
pub proof fn lemma_axis_writes_commute(v: VehicleView, up: usize, forward: usize)
    ensures
        v.with_up_axis(up).with_forward_axis(forward) == v.with_forward_axis(forward).with_up_axis(up),
{
}

/// An existing wheel is reported in contact exactly when its own ray-cast
/// information says so, whatever its index; a missing wheel never is.
pub proof fn lemma_contact_is_the_wheels_own_flag(v: VehicleView, i: int)
    ensures
        0 <= i < v.wheels.len() ==> (v.wheel_in_contact(i) == wheel_contact(v.wheels[i]).in_contact),
        (i < 0 || i >= v.wheels.len()) ==> !v.wheel_in_contact(i),
{
}

/// An existing wheel reports the collider its own ray cast holds, packed with
/// the index in the low 32 bits and the generation in the high ones, and
/// reports none when its ray cast holds none; a missing wheel reports none.
pub proof fn lemma_ground_is_the_wheels_own_collider(v: VehicleView, i: int)
    ensures
        (i < 0 || i >= v.wheels.len()) ==> v.wheel_ground(i) is None,
        0 <= i < v.wheels.len() ==> (v.wheel_ground(i) is None <==> wheel_contact(v.wheels[i]).ground_object is None),
        0 <= i < v.wheels.len() ==> (wheel_contact(v.wheels[i]).ground_object matches Some(h)
            ==> v.wheel_ground(i) == Some((h.0 + h.1 * 0x1_0000_0000) as u64)),
{
}

/// A wheel index past the last wheel answers that the wheel is not in contact
/// and stands on no collider.
pub proof fn lemma_missing_wheel(v: VehicleView, i: int)
    requires
        i < 0 || i >= v.wheels.len(),
    ensures
        !v.wheel_in_contact(i),
        v.wheel_ground(i) == None::<u64>,
{
}

/// The chassis that a new vehicle reports is the packed handle it was made
/// with.
pub proof fn lemma_new_vehicle_reports_its_chassis(bits: u64)
    ensures
        packed_handle(handle_parts_of(bits).0, handle_parts_of(bits).1) == bits,
{
    lemma_packed_of_parts(bits);
}

/// The packed handle of the collider under a wheel splits back into that
/// collider's index and generation.
pub proof fn lemma_ground_handle_splits_back(v: VehicleView, i: int)
    requires
        0 <= i < v.wheels.len(),
        wheel_contact(v.wheels[i]).ground_object is Some,
    ensures
        v.wheel_ground(i) is Some,
        handle_parts_of(v.wheel_ground(i)->0) == wheel_contact(v.wheels[i]).ground_object->0,
{
    let h = wheel_contact(v.wheels[i]).ground_object->0;
    lemma_parts_of_packed(h.0, h.1);
}

/// Writing a wheel and reading it back gives the wheel written; the other
/// wheels, their number, the axes and the chassis stay as they were.
pub proof fn lemma_wheel_read_after_write(v: VehicleView, i: int, w: Wheel)
    requires
        0 <= i < v.wheels.len(),
    ensures
        v.with_wheel(i, w).wheels[i] == w,
        v.with_wheel(i, w).wheels.len() == v.wheels.len(),
        forall|j: int| 0 <= j < v.wheels.len() && j != i ==> #[trigger] v.with_wheel(i, w).wheels[j] == v.wheels[j],
        v.with_wheel(i, w).up_axis == v.up_axis,
        v.with_wheel(i, w).forward_axis == v.forward_axis,
        v.with_wheel(i, w).chassis == v.chassis,
{
}

/// A ray-cast vehicle controller as the bindings hand it out.
pub struct RawDynamicRayCastVehicleController {
    controller: DynamicRayCastVehicleController,
}

impl View for RawDynamicRayCastVehicleController {
    type V = VehicleView;

    closed spec fn view(&self) -> VehicleView {
        view_of(self.controller)
    }
}

impl RawDynamicRayCastVehicleController {
    /// The controller of the bindings.
    pub closed spec fn inner(&self) -> DynamicRayCastVehicleController {
        self.controller
    }

    /// A vehicle on the chassis whose packed handle is `chassis`, with no
    /// wheel yet, up axis 1 (y) and forward axis 0 (x).
    pub fn new(chassis: u64) -> (v: Self)
        ensures
            v@.wheels == Seq::<Wheel>::empty(),
            v@.up_axis == 1,
            v@.forward_axis == 0,
            v@.chassis == handle_parts_of(chassis),
            v@.chassis.0 == chassis % 0x1_0000_0000,
            v@.chassis.1 == chassis / 0x1_0000_0000,
    {
        let parts = handle_parts(chassis);
        RawDynamicRayCastVehicleController { controller: new_controller(parts.0, parts.1) }
    }

    /// Wraps a controller that was built elsewhere.
    pub fn from_controller(controller: DynamicRayCastVehicleController) -> (v: Self)
        ensures
            v.inner() == controller,
            v@ == view_of(controller),
    {
        RawDynamicRayCastVehicleController { controller }
    }

    /// The wrapped controller.
    pub fn controller(&self) -> (c: &DynamicRayCastVehicleController)
        ensures
            *c == self.inner(),
            view_of(*c) == self@,
    {
        &self.controller
    }

    /// The wrapped controller, for changes made through `rapier3d` itself.
    pub fn controller_mut(&mut self) -> (c: &mut DynamicRayCastVehicleController)
        ensures
            *c == old(self).inner(),
            view_of(*c) == old(self)@,
            final(self).inner() == *final(c),
            final(self)@ == view_of(*final(c)),
    {
        &mut self.controller
    }

    /// The packed handle of the chassis.
    pub fn chassis(&self) -> (bits: u64)
        ensures
            bits == packed_handle(self@.chassis.0, self@.chassis.1),
            bits == self@.chassis.0 + self@.chassis.1 * 0x1_0000_0000,
    {
        let parts = read_chassis(&self.controller);
        flat_handle(parts.0, parts.1)
    }

    /// The chassis' local up direction (0 = x, 1 = y, 2 = z).
    pub fn index_up_axis(&self) -> (axis: usize)
        ensures
            axis == self@.up_axis,
            axis == controller_up_axis(self.inner()),
    {
        read_up_axis(&self.controller)
    }

    /// Sets the chassis' local up direction.
    pub fn set_index_up_axis(&mut self, axis: usize)
        ensures
            final(self)@ == old(self)@.with_up_axis(axis),
    {
        write_up_axis(&mut self.controller, axis);
    }

    /// The chassis' local forward direction (0 = x, 1 = y, 2 = z).
    pub fn index_forward_axis(&self) -> (axis: usize)
        ensures
            axis == self@.forward_axis,
            axis == controller_forward_axis(self.inner()),
    {
        read_forward_axis(&self.controller)
    }

    /// Sets the chassis' local forward direction.
    pub fn set_index_forward_axis(&mut self, axis: usize)
        ensures
            final(self)@ == old(self)@.with_forward_axis(axis),
    {
        write_forward_axis(&mut self.controller, axis);
    }

    /// The number of wheels of the vehicle.
    pub fn num_wheels(&self) -> (n: usize)
        ensures
            n == self@.wheels.len(),
            n == controller_wheels(self.inner()).len(),
    {
        wheels_len(&self.controller)
    }

    /// The wheel at `i`, or `None` when the vehicle has no such wheel.
    pub fn wheel(&self, i: usize) -> (w: Option<&Wheel>)
        ensures
            w is Some <==> (i as int) < self@.wheels.len(),
            w matches Some(r) ==> *r == self@.wheels[i as int],
    {
        if i < wheels_len(&self.controller) {
            Some(wheel_ref(&self.controller, i))
        } else {
            None
        }
    }

    /// The wheel at `i` for changing its settings, or `None` when the vehicle
    /// has no such wheel. What the wheel holds when the borrow ends is the
    /// vehicle's wheel at `i`, and nothing else changes; without a wheel at `i`
    /// nothing changes at all.
    pub fn wheel_mut(&mut self, i: usize) -> (w: Option<&mut Wheel>)
        ensures
            w is Some <==> (i as int) < old(self)@.wheels.len(),
            w matches Some(r) ==> *r == old(self)@.wheels[i as int],
            w matches Some(r) ==> final(self)@ == old(self)@.with_wheel(i as int, *final(r)),
            w is None ==> final(self).inner() == old(self).inner(),
            w is None ==> final(self)@ == old(self)@,
    {
        if i < wheels_len(&self.controller) {
            Some(wheel_mut_ref(&mut self.controller, i))
        } else {
            None
        }
    }

    /// Whether the wheel at `i` touches the ground; `false` when there is no
    /// such wheel.
    pub fn wheel_is_in_contact(&self, i: usize) -> (contact: bool)
        ensures
            contact == self@.wheel_in_contact(i as int),
            contact ==> self@.wheel_ground(i as int) is Some,
            (i as int) < self@.wheels.len() ==> contact == wheel_contact(self@.wheels[i as int]).in_contact,
            (i as int) >= self@.wheels.len() ==> !contact,
    {
        if i < wheels_len(&self.controller) {
            wheel_contact_at(&self.controller, i).in_contact
        } else {
            false
        }
    }

    /// The packed handle of the collider under the wheel at `i`; `None` when
    /// there is no such wheel or it stands on nothing.
    pub fn wheel_ground_object(&self, i: usize) -> (ground: Option<u64>)
        ensures
            ground == self@.wheel_ground(i as int),
            ground is None ==> !self@.wheel_in_contact(i as int),
            (i as int) >= self@.wheels.len() ==> ground is None,
            (i as int) < self@.wheels.len() ==> (ground is None <==> wheel_contact(self@.wheels[i as int]).ground_object is None),
            (i as int) < self@.wheels.len() ==> (wheel_contact(self@.wheels[i as int]).ground_object matches Some(h)
                ==> ground == Some((h.0 + h.1 * 0x1_0000_0000) as u64)),
    {
        if i < wheels_len(&self.controller) {
            match wheel_contact_at(&self.controller, i).ground_object {
                Some(h) => Some(flat_handle(h.0, h.1)),
                None => None,
            }
        } else {
            None
        }
    }

    /// The filter of a vehicle step: the flags `filter_flags` when they are all
    /// known (none otherwise), the groups packed in `filter_groups`, and the
    /// vehicle's own chassis left out of the ray casts.
    pub fn query_filter(&self, filter_flags: u32, filter_groups: Option<u32>) -> (filter: VehicleQueryFilter)
        ensures
            filter.flags == (if names_known_flags(filter_flags) { filter_flags } else { 0 }),
            filter.flags == (if filter_flags & !0x1fu32 == 0 { filter_flags } else { 0 }),
            filter.groups == groups_of(filter_groups),
            filter_groups matches Some(p) ==> filter.groups == Some(((p / 0x1_0000) as u32, (p % 0x1_0000) as u32)),
            filter_groups is None ==> filter.groups is None,
            filter.exclude_rigid_body == Some(self@.chassis),
    {
        let chassis = read_chassis(&self.controller);
        vehicle_query_filter(filter_flags, filter_groups, chassis)
    }
}

} // verus!
