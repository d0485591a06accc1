# image_compresser

A batch converter that turns every supported image below an input directory
into a lossy WebP file below an output directory, keeping the relative path
and appending `.webp` to the file name (`a/b/photo.png` becomes
`a/b/photo.png.webp`).

- `src/` is the library, verified with Verus: the format table, the
  decode/resize/encode pipeline around the `image` and `webp` crates, the
  per-file conversion as a state machine, the scan bookkeeping, the run
  totals and the NDJSON report lines.
- `app/` is the command-line program: argument parsing (clap), the directory
  walk (walkdir), the file system, the worker pool (rayon) and printing.
- `tests/` exercises the library on concrete inputs.
