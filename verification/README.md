# shopdrop

A live inventory dashboard for an outlet shop, with a review workflow for new
products. The rules of the shop are a verified library (`src/`, checked with
Verus); the web server around it is ordinary Rust (`app/`).

- `src/models.rs` – review status, products, request bodies.
- `src/store.rs` – the catalog: products keyed by SKU, no SKU twice.
- `src/handlers.rs` – what each API request does to the catalog and answers.
- `src/db.rs` – schema upgrades, reading stored rows, the starter catalog.
- `src/simulation.rs` – the background market simulation, one tick at a time.
- `src/laws.rs` – properties that span several operations.
- `app/` – actix-web server, SQLite persistence, WebSocket broadcasts.

Prices are carried through the library as the bit pattern of an `f64`.
