use rapier3d::control::WheelTuning;
use rapier3d::dynamics::{RigidBodyBuilder, RigidBodyHandle, RigidBodySet};
use rapier3d::geometry::{ColliderBuilder, ColliderHandle, ColliderSet};
use rapier3d::math::{Point, Vector};
use rapier3d::pipeline::{QueryFilter, QueryFilterFlags, QueryPipeline};
use vehicle_controller::controller::RawDynamicRayCastVehicleController;
use vehicle_controller::handle::{flat_handle, handle_parts};

fn scene() -> (RigidBodySet, ColliderSet, RigidBodyHandle, ColliderHandle) {
    let mut bodies = RigidBodySet::new();
    let mut colliders = ColliderSet::new();
    let ground = colliders.insert(ColliderBuilder::cuboid(10.0, 0.1, 10.0).build());
    let chassis = bodies.insert(RigidBodyBuilder::dynamic().translation(Vector::new(0.0, 1.0, 0.0)).build());
    colliders.insert_with_parent(ColliderBuilder::cuboid(0.5, 0.2, 1.0).build(), chassis, &mut bodies);
    (bodies, colliders, chassis, ground)
}

fn bits_of(h: RigidBodyHandle) -> u64 {
    let (i, g) = h.into_raw_parts();
    flat_handle(i, g)
}

#[test]
fn new_vehicle_has_defaults() {
    let v = RawDynamicRayCastVehicleController::new(flat_handle(3, 1));
    assert_eq!(v.num_wheels(), 0);
    assert_eq!(v.index_up_axis(), 1);
    assert_eq!(v.index_forward_axis(), 0);
    assert_eq!(v.chassis(), flat_handle(3, 1));
    assert_eq!(v.controller().chassis, RigidBodyHandle::from_raw_parts(3, 1));
}

#[test]
fn chassis_is_reported_as_given() {
    for &b in &[0u64, 5, 0x0000_0002_0000_0007, u64::MAX - 1] {
        assert_eq!(RawDynamicRayCastVehicleController::new(b).chassis(), b);
    }
}

#[test]
fn axes_read_back_what_was_written() {
    let mut v = RawDynamicRayCastVehicleController::new(0);
    v.set_index_up_axis(2);
    assert_eq!(v.index_up_axis(), 2);
    assert_eq!(v.index_forward_axis(), 0);
    v.set_index_forward_axis(1);
    assert_eq!(v.index_forward_axis(), 1);
    assert_eq!(v.index_up_axis(), 2);
    assert_eq!(v.controller().index_up_axis, 2);
    assert_eq!(v.controller().index_forward_axis, 1);
}

#[test]
fn missing_wheels_are_not_in_contact() {
    let v = RawDynamicRayCastVehicleController::new(0);
    assert!(!v.wheel_is_in_contact(0));
    assert!(!v.wheel_is_in_contact(usize::MAX));
    assert_eq!(v.wheel_ground_object(0), None);
}

#[test]
fn wheels_added_through_rapier_are_counted() {
    let mut v = RawDynamicRayCastVehicleController::new(0);
    let tuning = WheelTuning::default();
    v.controller_mut().add_wheel(Point::new(0.5, 0.0, 1.0), Vector::new(0.0, -1.0, 0.0), Vector::new(-1.0, 0.0, 0.0), 0.5, 0.3, &tuning);
    v.controller_mut().add_wheel(Point::new(-0.5, 0.0, 1.0), Vector::new(0.0, -1.0, 0.0), Vector::new(-1.0, 0.0, 0.0), 0.5, 0.3, &tuning);
    assert_eq!(v.num_wheels(), 2);
    assert!(!v.wheel_is_in_contact(0));
    assert!(!v.wheel_is_in_contact(2));
    assert_eq!(v.wheel_ground_object(1), None);
}

#[test]
fn step_finds_the_ground_under_the_wheels() {
    let (mut bodies, colliders, chassis, ground) = scene();
    let mut queries = QueryPipeline::new();
    queries.update(&colliders);

    let mut v = RawDynamicRayCastVehicleController::new(bits_of(chassis));
    let tuning = WheelTuning::default();
    v.controller_mut().add_wheel(Point::new(0.0, 0.0, 0.0), Vector::new(0.0, -1.0, 0.0), Vector::new(-1.0, 0.0, 0.0), 0.6, 0.4, &tuning);
    // A wheel far outside the ground slab.
    v.controller_mut().add_wheel(Point::new(50.0, 0.0, 0.0), Vector::new(0.0, -1.0, 0.0), Vector::new(-1.0, 0.0, 0.0), 0.6, 0.4, &tuning);

    let f = v.query_filter(0, None);
    assert_eq!(f.exclude_rigid_body, Some(chassis.into_raw_parts()));
    let filter = QueryFilter {
        flags: QueryFilterFlags::from_bits_retain(f.flags),
        groups: None,
        exclude_collider: None,
        exclude_rigid_body: f.exclude_rigid_body.map(|(i, g)| RigidBodyHandle::from_raw_parts(i, g)),
        predicate: None,
    };
    v.controller_mut().update_vehicle(1.0 / 60.0, &mut bodies, &colliders, &queries, filter);

    assert!(v.wheel_is_in_contact(0));
    let (gi, gg) = ground.into_raw_parts();
    assert_eq!(v.wheel_ground_object(0), Some(flat_handle(gi, gg)));
    assert_eq!(handle_parts(v.wheel_ground_object(0).unwrap()), (gi, gg));

    assert!(!v.wheel_is_in_contact(1));
    assert_eq!(v.wheel_ground_object(1), None);
    assert!(!v.wheel_is_in_contact(2));
}

#[test]
fn excluded_flags_keep_the_wheel_off_the_ground() {
    let (mut bodies, colliders, chassis, _ground) = scene();
    let mut queries = QueryPipeline::new();
    queries.update(&colliders);

    let mut v = RawDynamicRayCastVehicleController::new(bits_of(chassis));
    v.controller_mut().add_wheel(Point::new(0.0, 0.0, 0.0), Vector::new(0.0, -1.0, 0.0), Vector::new(-1.0, 0.0, 0.0), 0.6, 0.4, &WheelTuning::default());

    // EXCLUDE_FIXED: the ground collider has no parent body.
    let f = v.query_filter(1, Some(0xffff_ffff));
    assert_eq!(f.flags, 1);
    assert_eq!(f.groups, Some((0xffff, 0xffff)));
    let filter = QueryFilter {
        flags: QueryFilterFlags::from_bits_retain(f.flags),
        groups: None,
        exclude_collider: None,
        exclude_rigid_body: f.exclude_rigid_body.map(|(i, g)| RigidBodyHandle::from_raw_parts(i, g)),
        predicate: None,
    };
    v.controller_mut().update_vehicle(1.0 / 60.0, &mut bodies, &colliders, &queries, filter);
    assert!(!v.wheel_is_in_contact(0));
}

#[test]
fn wheel_settings_written_by_index_read_back() {
    let mut v = RawDynamicRayCastVehicleController::new(0);
    let tuning = WheelTuning::default();
    v.controller_mut().add_wheel(Point::new(0.5, 0.0, 1.0), Vector::new(0.0, -1.0, 0.0), Vector::new(-1.0, 0.0, 0.0), 0.5, 0.3, &tuning);
    v.controller_mut().add_wheel(Point::new(-0.5, 0.0, 1.0), Vector::new(0.0, -1.0, 0.0), Vector::new(-1.0, 0.0, 0.0), 0.5, 0.3, &tuning);

    if let Some(w) = v.wheel_mut(1) {
        w.radius = 0.75;
        w.engine_force = 120.0;
    }
    assert_eq!(v.wheel(1).map(|w| w.radius), Some(0.75));
    assert_eq!(v.wheel(1).map(|w| w.engine_force), Some(120.0));
    assert_eq!(v.wheel(0).map(|w| w.radius), Some(0.3));
    assert_eq!(v.num_wheels(), 2);
    assert_eq!(v.index_up_axis(), 1);
}

#[test]
fn missing_wheel_is_neither_read_nor_written() {
    let mut v = RawDynamicRayCastVehicleController::new(flat_handle(1, 1));
    v.controller_mut().add_wheel(Point::new(0.0, 0.0, 0.0), Vector::new(0.0, -1.0, 0.0), Vector::new(-1.0, 0.0, 0.0), 0.5, 0.3, &WheelTuning::default());
    assert!(v.wheel(1).is_none());
    assert!(v.wheel_mut(1).is_none());
    assert!(v.wheel(usize::MAX).is_none());
    assert!(v.wheel(0).is_some());
    assert_eq!(v.num_wheels(), 1);
    assert_eq!(v.chassis(), flat_handle(1, 1));
}

#[test]
fn each_index_reads_its_own_wheel() {
    let mut v = RawDynamicRayCastVehicleController::new(0);
    let tuning = WheelTuning::default();
    for k in 0..3 {
        v.controller_mut().add_wheel(Point::new(k as f32, 0.0, 0.0), Vector::new(0.0, -1.0, 0.0), Vector::new(-1.0, 0.0, 0.0), 0.5, 0.1 * (k + 1) as f32, &tuning);
    }
    for k in 0..3usize {
        assert_eq!(v.wheel(k).map(|w| w.chassis_connection_point_cs.x), Some(k as f32));
        assert_eq!(v.wheel(k).map(|w| w.radius), Some(0.1 * (k + 1) as f32));
    }
    if let Some(w) = v.wheel_mut(2) {
        w.brake = 3.0;
    }
    assert_eq!(v.wheel(2).map(|w| w.brake), Some(3.0));
    assert_eq!(v.wheel(0).map(|w| w.brake), Some(0.0));
    assert_eq!(v.wheel(1).map(|w| w.brake), Some(0.0));
}
