# net_monitor

A network monitor that polls a host with ICMP echo requests and SNMP GETs,
either each provider on its own schedule ("independent") or all together
("synchronized"), and appends every result as a JSON line to a log file.

Layout:

- `src/` is the verified library (Verus):
  - `text.rs`: decimal and hexadecimal texts, padding, joining, searching,
    splitting, and reading a `u32` as `str::parse` does, with their proofs;
  - `oid.rs`: OID texts and `async_snmp::Oid` (declared, built and written
    through trusted wrappers), with the law that an OID's text reads back to it;
  - `utils.rs`: `validate_oids`, clock texts and session ids;
  - `config.rs`: the configuration, its error messages, the default
    configuration and the setup plans of both strategies;
  - `models.rs`: the events that the monitor reports;
  - `poller.rs`: the retry state machine of one poll and the pollers;
  - `icmp.rs`, `snmp.rs`: the providers and the texts of their outcomes;
  - `sender.rs`: the JSON log sender; `traits.rs`: `Pollable`; `cli.rs`: the commands.
- `app/` is the program around it: command line parsing, reading and writing
  files, the network I/O (ping, SNMP, trace route), serialization and the
  async loops that drive the library's state machines.
- `tests/` runs the library on concrete values.
