# ios_drop

File drag-and-drop for an iOS view, verified with Verus.

- `src/` is the verified library:
  - `geometry`: positions of a drag (`Point<Pixels>`, lengths kept as the
    bit pattern of the platform's `f32`);
  - `external_paths`: the paths a drag carries, held in a `smallvec::SmallVec`;
  - `file_drop`: the events a view receives during a drag;
  - `drop_zone`: the drop-zone demo's state, how each event changes it, and
    what it draws;
  - `drag_drop`: the one drop session state, the reading of a session's items
    into paths, the loading of the items' files (begun, then each result taken
    in, tagged with its loading's generation), and the steps
    taken for each `UIDropInteractionDelegate` callback;
  - `laws`: what holds over any inputs and any run of steps.
- `app/` is the platform side: Objective-C messaging through `objc` (with
  completion handlers as `block` blocks), the process-wide session state, the
  delegate callbacks, copying loaded files out of UIKit's temporary
  location, and the text formatting of floating-point positions.
- `tests/` runs the library on concrete values.
