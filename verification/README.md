# riv

The verified core of a small image sharing site: images are stored as links
to where they are hosted, carry tags, and are found by searching for tags.

- `src/` is the library, verified with Verus. It holds every decision the site
  makes: who may do what (`user`, `permission`), the settings in force and who
  may change them (`settings`), registration and login with bcrypt password
  hashes (`account`), sets of tags kept in `str` order (`tags`, `text`), the
  words typed into tag and search fields (`words`), attaching tags to an image
  statement by statement (`linking`), editing an image's tags (`editing`), and
  what the pages link to and accept (`pages`).
- `app/` is the server program around it: the PostgreSQL database, the
  `config.toml` settings file and the HTTP check of uploaded links. It asks the
  library what to do and performs it.
- `tests/` runs the library on concrete values.
