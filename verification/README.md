# Lenso Projects

Project planning with stable issue identifiers, written and proved in Verus: teams and their
workflows, projects and their statuses, issues, comments, labels, cycles, milestones, relations,
external links, an activity feed, subject export and retention, and the authorization of every call.

## Layout

- `src/` is the verified library.
  - `store` holds every row; `issues`, `projects`, `teams`, `workflow`, `project_status`,
    `planning`, `collaboration`, `activity`, `export` and `retention` are its operations. Each
    operation states which inputs it refuses, with which answer, and what it changes.
  - `access`, `operations`, `service`, the `*_handlers` and `governance` decide who may call what.
  - `tools` adapts the contracts for agents; `ingress` takes an HTTP request from action to action
    over the answers that `web` gives.
  - `laws` states what holds across operations: identifiers never repeat and never stop resolving,
    issue numbers only grow whatever happens in between, revisions stay positive, parents stay
    acyclic, a retried command is answered and not run again, every team and every
    organization keeps exactly one usable default, nothing in use is archived or deleted, pages
    follow each other without gaps, a checkpoint of the feed skips nothing, hidden teams stay
    hidden, a forgotten subject leaves nothing behind, and no tool runs for a web request that was
    not authenticated by itself. `laws::history` puts operations in a row: every invariant of the
    store is kept by each of them, and so holds after any number of them from an empty store (of
    parents: where every update passed `validate::valid_issue_update`).
- `app/` is ordinary Rust around the library: JSON documents, ports, PostgreSQL and HTTP. It reads
  the rows of the schema into a `Store`, for a change under a lock, runs one verified operation,
  writes back what changed and commits. Row and activity numbers come from the sequences of the
  schema, which only go on.
- `tests/` runs the library on concrete values.

## What is trusted

Seven small wrappers, each documented where it stands: RFC 3339 times and ISO 8601 dates (`time`),
random identifiers (`uuid`), JSON strings (`serde_json`), the check of an Auth public key
(`lenso_auth_sdk`), the check of JSON text (`lenso_capability_agent_tool_provider`) and
`String::with_capacity`.
