# module_transformer

Rewrites JavaScript and TypeScript modules for a dependency-injection
runtime, on top of the `oxc` parser, transformer and code generator:

* every top-level class declaration without a decorator named `depends`
  gets `@depends(..)`, one string per parameter of its first constructor:
  the values of the parameter's `@alias("..")` decorators (which are
  removed), or else the name of its type (`Foo`, `ns.Foo`; type arguments
  left out);
* the runtime's helpers are imported from `@moggie/runtime/polyfill`, after
  the module's leading imports, unless the module already imports them;
* decorated classes become `$acd$(class X {..}, "X", [decorators])`;
* the result is lowered to ES2022 and printed.

A file name without a JavaScript or TypeScript extension, and a source the
parser gives up on, are refused with a message; whether a module is refused,
and with which message, depends on its file name and code alone. The code
of a success is what `oxc` prints of the parsed program once the library's
tree read from it has been rewritten and put back.

Layout:

* `src/model.rs` — the library's own tree of a module, holding as plain
  values what the rules read and the `oxc` nodes that carry the rest;
* `src/dependencies.rs`, `src/polyfill.rs`, `src/decorators.rs` — the three
  rewriting passes, with their specifications;
* `src/laws.rs` — properties of the passes across statements and calls;
* `src/convert.rs`, `src/utils.rs` — moving between `oxc`'s tree and the
  library's, and building `oxc` nodes, stated over names for what reading a
  part of a node gives;
* `src/transformer.rs` — the whole transformation of a source text;
* `app/` — the Node.js binding through `napi`.
