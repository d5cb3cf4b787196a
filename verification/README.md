# yapbc

Yet Another Protocol Buffer Compiler: reads `.proto` schemas (messages, enums, `oneof`
groups, imports) and writes Python classes for `betterproto2` or Go code for the
`protoimpl` runtime, with the file descriptor that Go code embeds.

The library under `src/` is verified with Verus:

- `text`, `util`: string helpers and identifier case conversions; `case_laws`: the
  Pascal-case form as joined words, and the snake/Pascal round trips for ASCII names.
- `ast::lexer`, `ast::comments`, `ast::field`, `ast::penum_field`, `ast::penum`,
  `ast::message`: the tokenizer and the parser, each stated against a grammar written as
  spec functions (`parse_spec` for a whole schema).
- `ast::compile_python`: the Python generator, stated as `py_module`.
- `ast::descriptor`: the descriptor messages and their protobuf wire encoding, built on
  prost's field encoders.
- `ast::compile_go`, `ast::go_templates`: the Go generator and import resolution, stated
  as `go_output`.
- `ast::properties`: properties that span the parser and the generators.

`app/main.rs` is the command line (`yapbc compile -f FILE... -o DIR -l python|go
[-m MODULE] [-i INPUT_DIR]`): it reads the files, checks what the library asks of its
inputs, and writes the generated files.
