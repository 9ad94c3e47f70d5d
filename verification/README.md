# axotyped

Typed TypeScript API clients from Axum route metadata.

Routes are defined once, with a builder. The builder fills an Axum router and,
alongside it, a collection of route definitions with the types that the routes
use, from which a client can be generated.

- `src/` is the verified library: route definitions, the type registry, the
  builder, reading a handler's signature and what it says of its route, names in
  the client, and the decisions of an export run. Each function states in its contract what
  it returns; laws that relate several functions are public proof functions at
  the end of each module.
- `app/` is ordinary Rust around it: Axum handlers, ts-rs exports, the
  thread-local that carries metadata to the builder, and the code that the
  macros write.
- `tests/` runs the library, with a real Axum router and with real tokens.

## What is trusted

- `String::push` appends a character (`src/text.rs`).
- `TypeId::of` returns the same identifier for the same type at each call, and
  `==` on identifiers is equality (`src/registry.rs`).
- `axum::Router::new` is declared, with nothing claimed of it
  (`src/builder.rs`).
- `syn::parse2` makes the same item or path of the same tokens at each call,
  `syn::parse_str` takes the same texts for identifiers, and the values of `syn`'s types are trees, taken apart one level at a time
  (`src/syntax.rs`).
