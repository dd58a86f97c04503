# typhon

The state-keeping core of the Typhon Wayland compositor, written in Verus.
Each module states in its contracts what its operations do to the
compositor's state, and Verus proves the code against them.

- `src/` is the verified library: surfaces and their double-buffered state,
  damage and regions, the xdg-shell configure lifecycle, interactive move and
  resize, server-side decoration input, the popup tree (creation, grabs, cycles,
  dismissal), resize previews and the render placement and clip of previewed
  toplevels, subsurface roles and the cache of synchronized commits with its
  admission budgets, XWayland scene batches, visual state and buffer commits,
  and the pipeline trace.
- `tests/` exercises the library on concrete values.
- `app/` connects the library to the Wayland protocol objects of
  `wayland-server` and `wayland-protocols`: protocol enums to library
  values, surface identities, the monotonic clock, and the events the
  library's decisions call for.
