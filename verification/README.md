# k9rs

A Kubernetes browser: a window that lists the resources of a cluster by
type, filters them, shows the detail of one (overview, YAML, events, logs),
switches namespaces, restarts workloads and applies edited YAML.

The library (`src/`) holds everything the window decides, verified with
Verus:

- `app` — the state of the main view and how it answers each key, click and
  cluster result; every step returns the cluster operation to run next.
- `k8s` — plain-data views of the API objects, the listing tables and detail
  views built from them, and the decisions around each cluster operation
  (label selectors, log gathering, restarts, `kubectl` arguments).
- `model` — the tables, detail views, port forwards and the resource types.
- `ui` — colours by meaning, sidebar groups, column titles, picker lists and
  the texts of the detail view.
- `laws` — properties that span several operations.
- `text`, `sorting` — string and ordering helpers with their contracts.

`app/` is the program around it: command-line arguments, the fetches through
the Kubernetes API and `kubectl`, and the drawing of the window.
