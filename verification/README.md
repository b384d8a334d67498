# arbhx_blocking

Blocking adapters over the asynchronous arbhx virtual-filesystem traits.

- `src/` is the verified library: `VfsCompat` records which optional
  capabilities (reader, writer, seekable writer, full access) a backend
  granted, hands out the granted handles, refuses the others with
  `Unsupported`, and offers itself as an interface exactly when the
  capability behind it is present.
- `app/` implements the `arbhx_core::blocking` traits on top of it, driving
  every asynchronous call to completion on a tokio runtime handle.
