# starviewer

A 3D star map viewer. It loads a star catalogue (HYG database, CSV), keeps the
stars in a k-d tree for range queries, and draws them with SDL3's GPU API and
an imgui overlay.

## Layout

- `src/` is the verified core, checked with Verus:
  - `fleet`: ships, expeditions and the fleet;
  - `naming`: star designations and the choice of a star's most human name,
    with decimal formatting of catalogue numbers;
  - `catalog`: the numbered star catalogue that the spatial index refers to;
  - `controls`: decisions on input (mouse focus, camera turning and zooming,
    movement keys, label shading, gamepad rumble);
  - `layout`: sizes and counts handed to the GPU and the navigation cube's
    triangle list.
- `app/` is the program around it: window, rendering, the camera (floating
  point), catalogue loading and the k-d tree.
- `tests/` exercises the core on concrete values.
