# mensatt

The GraphQL backend of mensatt (canteen dishes, their occurrences, tags, reviews
and review images), built around a library verified with Verus.

- `src/` is the verified library: configuration and its defaults, timestamps and
  dates, identifiers, the errors and what a client sees of them, authentication
  (claims, bearer tokens, password checks), the grouping that every data loader
  does with the rows of a batched query, and the decisions behind each mutation
  (what is written, which image-service calls follow, what is rolled back, what
  subscribers are told). Every function carries a contract; the laws that relate
  several functions are public proof functions (`lemma_*`).
- `app/` is the server around it: configuration loading, the database (diesel),
  HTTP (axum), the GraphQL schema (async-graphql), JSON web tokens and the
  image-service client. It performs the I/O and hands plain values to the library.
- `tests/` runs the library on concrete values.
