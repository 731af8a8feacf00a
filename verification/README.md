# tempest

A NEXRAD weather radar toolkit: decoding Level II radar messages, finding and
caching scans of the public NOAA bucket on S3, map tiles, radar color scales,
and the state of the viewer's controls.

## Layout

- `src/` — the library, verified with Verus.
  - `decode/` — NEXRAD message headers (types 1 and 31), volume scans, errors.
  - `fetch/` — scan file names and bucket listings, S3 addresses and reply
    statuses, retry schedule, polling for new scans, the LRU index of the scan
    cache, the station registry, decompression.
  - `map/` — tile coordinates and URLs, the tile cache index with LRU
    eviction, tile decoding.
  - `render/` — colors, radar moments, and which samples of a sweep are projected.
  - `ui/` — state machines of the viewer's controls (timeline, station
    selector, moment switcher, elevation selector, color legend, cache
    manager, offline indicator) and the texts they show.
  - `golden.rs` — counting differing pixels between two images.
  - `text.rs` — building and comparing text.
- `app/` — the command-line program (golden image management) and the I/O
  around the library: HTTP requests, files on disk, sleeping and polling,
  floating-point projection and color interpolation.
- `tests/` — tests of the library.

Angles, ranges, coordinates and moment values that are `f32`/`f64` numbers
are held in the library as their IEEE bit patterns; `app/` converts them with
`f32::from_bits` and `f64::from_bits`.
