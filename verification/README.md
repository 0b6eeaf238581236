# manga_shelf_lib

The rules of a desktop manga collection manager, written in Verus and proved
against their contracts.

- `src/` is the verified library: volume labels and their sort keys, ISBN
  normalization and checksums, collection records and the ownership rule, the
  checks on edited series and volumes, calendar dates, search patterns for SQL
  `LIKE`, cover image detection and content-addressed cover paths, update backup
  names, and backup rotation. Public proof functions state the laws that hold
  across these functions (sort keys order labels as numbers, an owned volume is
  never on the wishlist, rotation keeps the newest backups, and so on).
- `tests/` runs the library on concrete values.
- `app/` is the unverified shell around it: the SQLite database (through
  `rusqlite`), the files on disk for covers and backups, and the serde shapes the
  front end exchanges.
