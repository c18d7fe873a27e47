# zyn

The core model of the zyn JavaScript package manager, verified with Verus.

- `src/` is the library. Every function in it is verified; its contracts are
  stated over mathematical models (`Seq<char>` for text, model structs and
  enums for composite values).
  - `name`, `version`, `dependency`, `source`, `package`: package names,
    versions, requested dependencies, resolved sources and package identities.
  - `patch`, `patch_path`, `catalog`: patch identities, stacks, files,
    effects, selectors and the patch catalog.
  - `graph`, `lockfile`: nodes and edges of the resolved graph, and the lockfile.
  - `dep_spec`, `manifest`, `manifest_error`: reading `package.json` fields
    into dependency requests.
  - `text`, `same`, `sorted`: character-level helpers, identity by model, and
    vectors kept in key order.
- `app/` parses `package.json` text with serde and hands the fields to the library.
- `tests/` exercises the library.
