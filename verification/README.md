# rust-axum-image-bbs

An image bulletin board on axum and SQLite, with its rules verified by Verus.

- `src/` — the verified library: the configuration (`config`), the accepted
  image kinds (`image_ext`), the post form and its validation (`form`, with
  content sniffing through the `infer` crate in `sniff`), the names under which
  images are stored and the image change an edit asks for (`storage`), the page
  query (`query`), the database file named by a `sqlite://` URL (`database`), and properties that span these (`laws`).
- `app/` — the server: start-up, routing, database access and file I/O.
- `tests/` — tests of the library.
