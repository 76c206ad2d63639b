# musium

The primitive types of the Musium music library and the row encodings of its
SQLite database, verified with Verus.

- `src/prim.rs`: track, album and artist ids (reading them from hexadecimal
  and writing them back), track ids made from album ids, loudness, sample
  rates, dates, instants (RFC 3339 through chrono), and the library records.
- `src/text.rs`: reading unsigned integers as `from_str_radix` does, and
  writing zero-padded digits, with the proof that one undoes the other.
- `src/sql.rs`: parameter and column values, and the rule that decides from
  each step of a statement whether to read a row, stop, or fail.
- `src/database.rs`, `src/db2.rs`: the SQL of each statement, the parameters
  each one is given, the conversion of the file metadata columns and the
  decoding of the id, filename and mtime rows, and the cache that keeps one
  prepared statement per query. Which column is read into which field is in
  `app/`, where the columns are read with SQLite's own conversions.
- `app/`: the code that opens the database, binds the parameters, steps the
  statements and reads their columns (with the `sqlite` crate), and the
  loudness conversions from floating-point numbers.
- `tests/`: tests of the library, including runs of the statements against an
  in-memory SQLite database.
