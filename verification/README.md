# node_launchpad

The home screen of a node launchpad, verified with Verus.

- `src/` is the component: its state and the laws of its reactions (`state`, `laws`), the
  component itself (`home`), what it asks of its caller (`task`), what it draws (`screen`,
  `layout`, `table`), and the nodes it manages (`node`, `stats`, `resource_allocation`).
- `app/` puts the drawings on a terminal, reads the node registry and runs the node manager.
- `tests/` run the component on concrete values.
