# vehicle_controller

The verified core of the WebAssembly bindings of a ray-cast vehicle controller
built on `rapier3d`.

- `src/` is the library, checked by Verus:
  - `handle.rs`: handles as the 64 bits that cross the language boundary;
  - `query_filter.rs`: the scene-query filter of a vehicle step (flags, collision
    groups, the chassis left out);
  - `controller.rs`: the controller of `rapier3d`, its axis settings, and the
    index-checked access to its wheels;
  - `wheel_role.rs`: the axle and role of a new wheel;
  - `curve.rs`: the pairing of an engine's torque-curve points.
- `app/` holds the `wasm_bindgen` bindings themselves: the floating-point
  settings, the JavaScript arrays and callbacks, and the calls into the vehicle
  API of the physics engine.
- `tests/` exercises the library with real `rapier3d` scenes.
