# meshtouch_relay

The decision logic of MeshRelay, a relay that stores and forwards end-to-end
encrypted messages, written in Verus and proved against its contracts.

- `src/` is the verified library:
  - `config`: the relay configuration, its defaults, copying, and which peer
    relays are trusted;
  - `api`: each HTTP endpoint as decisions: validating the request, the record
    to store, and the answer once storage has reported;
  - `clock`: UTC instants and the hour arithmetic and RFC 3339 text that
    `chrono` computes for receipts;
  - `ids`: fresh random identifiers from `uuid` and their shape;
  - `models`: the stored records;
  - `store`: the periodic removal of expired messages.
- `app/` is the daemon around it: command line, configuration file, the axum
  server, and the SQLite storage through sqlx.
- `tests/` runs the library on concrete inputs.
