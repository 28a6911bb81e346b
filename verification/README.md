# koharu

Verified core of Koharu's scene model, OCR source-geometry handling and HTTP
gateway request logic, written in Verus.

- `src/` — the library, verified by Verus:
  - `scene` — pages, nodes, text data and their recorded source geometry,
    page and node lookup (ordered maps), the source-image node of a page;
  - `evidence` — validation of recorded OCR geometry, `sha256:` references;
  - `spotting` — PaddleOCR-VL spotting responses turned into text nodes;
  - `idempotency` — idempotency keys and receipts, with the receipt
    protocol's laws;
  - `history` — the `If-Match` scene-epoch precondition;
  - `chart_agent`, `routes` — the capability answer and the route table;
  - `headers`, `digest`, `bytes`, `text`, `seqs`, `error` — helpers.
- `tests/` — tests of the library.
- `app/` — ordinary Rust around it: serde wire forms, the floating-point
  geometry (quadrilateral checks, pose estimation), file-backed receipts and
  the command line.

Geometry travels through the library as the bit patterns of `f32` values;
all arithmetic on them lives in `app/`.
