# rdfreak

Maps Rust values to RDF graphs and back, and writes the SPARQL queries that
fetch them from a graph database.

- `src/` is the library, verified with Verus: RDF terms and their models,
  literal, object and property conversions, resources, SPARQL graph
  patterns and the query and update texts, the generator of fresh SPARQL
  variables, calendar literals, and the decisions behind the derive macros
  (which attributes are required, which error is reported, what the
  generated code is made of).
- `tests/` runs the library on concrete values.
- `app/` holds what surrounds it: conversions to and from `oxrdf` and
  `chrono` values, the error types with their messages, the token
  generation of the derive macros (`syn`, `darling`, `quote`), and the
  asynchronous query client with its Oxigraph backend.
