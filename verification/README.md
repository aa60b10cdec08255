# ggrs_plot_operator

A plot operator for the Tercen data platform: it reads a task's crosstab
data, lays out facets and axis ranges, renders a plot and hands the image
back to the host.

`src/` is the verified library. Every function there carries a contract.
Verus proves each one, except for the few functions that call `serde_json`,
`base64` or `str::to_lowercase`/`String::push`: their contracts are trusted
statements about those calls, and the code around them is proved against
them. The modules:

- `properties`, `settings`, `config` — the operator's property document and
  the settings read from it (defaults, enumerated values, plot sizes).
- `task`, `colors`, `schema` — the host's tasks, workflows, cube queries,
  palettes and table schemas: which query a step computes, which table holds
  what, when a task fetch is retried.
- `facets`, `stream`, `rows`, `chunks`, `pipeline` — facet groups and layouts,
  axis range cells, heatmap grids, page rows, chunked table walks and the
  per-page rendering decisions.
- `result`, `cli`, `memory`, `text`, `lookup` — the result row, command
  lines, the process status text, and the text and map helpers the rest
  builds on.

`tests/` runs the library on concrete values. `app/` is the program around
it: gRPC calls, file and environment access, floating-point palettes and the
rendering engine.
