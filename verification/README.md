# compose_lens

Source-aware processing and validation of Docker Compose projects, written in Verus: every
executable function carries a `requires`/`ensures` contract that Verus proves.

Layout of `src/`:

- `source` — source identifiers and byte spans.
- `diagnostic` — stable, source-labelled diagnostics.
- `text` — byte-level string helpers with their specifications.
- `model/` — the typed Compose document model (services, ports, hosts, dependencies, resources,
  lifecycle hooks, …) with verified parsers for the short syntaxes.
- `interpolation` — `${VAR}` interpolation against an explicit environment, specified by a
  recursive evaluation model; sensitivity of substituted values is tracked.
- `merge` — provenance-preserving multi-file merge (`!reset`, `!override`, unique-key sequences),
  stated over views of the value trees.
- `loader/` — ordered project loading, depth-first traversal of caller-authorized `include`
  declarations, I/O-free composition of included definitions with conflict records, and
  caller-owned planning of included project directories.

Nothing in the library reads files, the network, or the process environment: documents,
environments, included projects and directory decisions are all supplied by the caller.

The library does not read YAML text. `ComposeDocument::parse` (in `model::parse`) takes a
document's authored value tree and extracts the typed model: the project name; services in
authored order with their string, boolean and list fields, `hostname`, `command`,
`stop_grace_period`, `restart` and `depends_on`; config and secret definitions; `x-` extensions and
unknown fields; and a diagnostic for every repeated key or value of the wrong form. The other
service fields, and network and volume definitions, are recognised but not yet typed by it. The typed project view of an include occurrence, and the authored trees that
`merge_project` converts (applying each document's interpolation overlay) and merges, are
supplied by the caller. Types that can hold sensitive values (interpolation results,
environment values, merged scalars, planned directories) offer no `Debug` output at all.

`tests/` holds the executable tests.
