# daikin_matter

Verified core of a bridge that exposes Daikin air conditioners (HTTP DSIOT
protocol) as Matter devices.

- `src/` — the library, verified with Verus:
  - `types` — operating mode and airflow enumerations with their wire bytes;
  - `property` — the property tree of device answers, lookup by path and
    reading of values (hex through the `hex` crate);
  - `status` — airflow settings per operating mode, read from a status
    answer and written as a property tree;
  - `info` — adapter information: firmware version normalisation, EDID
    decoding (through the `hex` crate) and assembly from reported properties;
  - `response` — device answers: entries by source, optional payloads and
    acceptance of a write;
  - `basic_info` — the UDP basic-info answer and adapter support;
  - `client` — request endpoint, connection fall-back, status cache and the
    steps of a status read, local API key, read requests;
  - `bridge` — endpoint layout of the Matter node and request routing;
  - `energy` — energy figures in mWh;
  - `runtime` — polling decisions, reachability and device-count checks;
  - `mdns` — choice of the mDNS interface;
  - `text` — character-level string helpers.
- `tests/` — tests of the library on concrete values.
- `app/` — the parts that do I/O: the reqwest HTTP client, serde forms of the
  protocol types, command-line options, the UDP probe and interface
  enumeration.
