# rayforce-adapter

Persists committed transactions as Rayforce splayed tables.

A log of commit envelopes is kept under one root directory:

- `tx`, a splayed table with one row for each transaction;
- `datom`, a splayed table with one row for each datom;
- `sym.ray`, the symbols that both tables share.

Each append writes both tables and the symbols anew. A table is written beside
the live one and then moved into its place, so that no failure loses a table.

## Layout

`src/` is the verified library. It does no I/O and calls no foreign function:
its processes hand out one request at a time and take the answer.

| modules | what they hold |
| --- | --- |
| `log`, `table`, `error`, `layout` | the data: envelopes, tables, failures, paths |
| `encode`, `decode` | envelopes to tables, rows to envelopes |
| `protocol` | the requests and the answers |
| `builder`, `save`, `reader` | building, saving and opening one table |
| `rebuild`, `load`, `projection` | writing, loading and opening a log |
| `text`, `path` | what is taken from `std` and `serde_json`, unproved |
| `laws` | what holds of the stored form |
| `store`, `run`, `written`, `loaded`, `reopen` | the processes on a store that does what it is asked |
| `safety`, `ends` | the processes on any store: nothing is lost, and each ends |

`tests/` runs the library against a store in memory.

`app/` runs the processes on the file system and on the Rayforce C library, and
offers the result as a `ray_transactor::Projection`. It links against a static
`librayforce`, `libm` and `libpthread`.

## License

MIT
