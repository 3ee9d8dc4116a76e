# data_backend

The logic of a small court reservation site, verified with Verus.

- `src/` is the library. Each handler of the site is split into the
  decisions it makes, which live here with contracts, and the database and
  HTTP work around them.
  - `decimal`: reading and writing unsigned 32-bit numbers as decimal text,
    with the proof that the written text reads back.
  - `reply`: the answers that are not rendered pages, session changes, and
    the path of a court's page.
  - `templates`: the data each page is rendered from.
  - `courts`: looking up a court, its page, and the list of all courts.
  - `reserve`: reserving a court (sign-in check, availability check, write).
  - `reservation`: a user's reservations, and removing one.
  - `account`: front page, sign-in, registration, sign-out, joining a party.
- `tests/` runs the library on concrete values.
- `app/` is the server: actix-web handlers that read the forms and the
  session, call the database (mysql), render pages (askama), and ask the
  library what to answer. It expects the `templates/`, `static/` and `sql/`
  assets of the site next to its manifest.
