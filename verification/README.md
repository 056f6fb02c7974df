# enchantron_core

The core of the Enchantron game, as a library whose behaviour is stated in
Verus contracts and proved.

* `src/` is the verified library:
  * `model`: integer geometry (points, sizes, rectangles of grid cells);
  * `spatial`: the `rstar` r-tree that indexes windows, behind trusted wrappers;
  * `window_index`: values in never reused slots, each with a window, found by the
    cells their window holds;
  * `world_service`: entities on the tile grid, each with the window around it;
  * `location_index`: the bookkeeping of the location service (entries, windows,
    the key of each entity), built empty or from stored slots;
  * `saved_game`: a stored game and how a new one starts;
  * `entity`, `entity_table`, `presenter_service`, `handles`, `event`, `direction`,
    `terrain`: entities and their data, per entity tables, presenter state and its
    lease, shared handles, touch events and registrations, compass directions,
    terrain parameters;
  * `png_generator`: PNG encoding through the `png` crate;
  * `binding`: how each data type crossing into Swift is rendered, and how a
    generated C header is split.
* `app/` holds what the library cannot: the lock protected, asynchronous services
  and the floating point movement of entities.
* `tests/` exercises the library.
