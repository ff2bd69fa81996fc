# Knowledge Base author workspace

The request-handling core of the `lenso.knowledge-author.web` Plugin, verified
with Verus. The Plugin serves the `/knowledge` author page and the
`/api/knowledge/articles*` routes; it authenticates the author through the
bound `lenso.auth@1` Provider and delegates every article operation to the
bound `lenso.knowledge-base@1` Provider.

- `src/` is the verified library: responses and HTTP problems (`response`),
  `snake_case` and text comparison (`text`), Domain Error mapping and
  dependency results (`domain`), author authentication (`author`), request
  checks (`request`), the embedded assets (`assets`) and the laws that span
  them (`laws`).
- `app/` is the Plugin shell: the Lenso endpoint and plugin macros, the
  asynchronous Provider calls, JSON decoding and encoding, and the conversion
  between the Endpoint contract's types and the library's.
- `tests/` exercises the library with the real Lenso types.
