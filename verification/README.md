# readonly_lint

The `useReadonlyClassProperties` lint rule: it reports the private members of a
TypeScript class that are never reassigned outside the constructor, and offers a fix
that marks them `readonly`. With the option `checkAllProperties`, public and protected
members are checked too.

- `src/` is the verified library. The class is given as plain values (`syntax.rs`):
  its members, and its syntax tree as far as the rule walks it. `rule.rs` holds the
  rule's entry points, `laws.rs` what is proved of them on every class.
  `process_file.rs` holds the decisions of linting one file, as a step function
  from where the lint stands and what the last command gave to the next command.
- `app/` holds the serialized form of the options (serde) and the loop that runs the
  file lint against a workspace.
