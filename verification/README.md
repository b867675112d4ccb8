# bencher_core

The verified core of the Bencher services.

- `src/endpoint.rs`: the API endpoints' display names.
- `src/adapter.rs`: the adapter trait and the adapters a report can name.
- `src/report/`: the report endpoints as state machines. The caller performs
  each returned action (database work, authorization) and hands back its
  outcome; listing, reading, posting and deleting reports, with the
  renumbering of code versions when a version loses its last report.
- `src/cli.rs`: the CLI's branch, testbed and organization subcommands and
  the request bodies they send.
- `src/parser.rs`: the task runner's command line and its language names.

`app/` holds what needs I/O or outside derives: the `clap` parser, the
`Display` names, the async drivers of the report state machines, the CLI's
requests and the floating-point metric rows.

`app/` is not complete on its own: the database and authorization work is
the `ReportStore` trait, which nothing here implements, and the CLI's backend
is the `Backend` trait. Their implementations need the service's context,
schema and JSON types, which this crate does not define. For the same
reason `Endpoint` has no `Auth` or `Ping` group: this crate does not define
the endpoint types of those groups. The task runner's command line has no
`author` or `version` attributes, which would need package metadata that this
crate's manifest does not carry.
