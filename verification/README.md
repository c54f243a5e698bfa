# hurl_adapters_lib

Converts HTTP test definitions written in KDL into [Hurl](https://hurl.dev/) files,
with the conversion specified and proved in Verus.

- `src/formats/kdl/document.rs`: a KDL document as a plain tree (nodes, entries, values).
- `src/formats/kdl/parse.rs`: KDL text parsed by the `kdl` crate and taken over as that tree.
- `src/formats/kdl/{request,response,body,json,translator}.rs`: what each KDL node
  stands for in a Hurl file, as spec functions, and the functions that build it.
- `src/writer/ast.rs`: the Hurl syntax tree and its view.
- `src/writer/{helpers,source,serializer}.rs`: node builders, placeholder splitting,
  and the Hurl text of each node.
- `app/main.rs`: the `hurl-adapt` command line: reads a file or stdin, hands the text
  to `translate_kdl_text` and writes the result.

Main statements: `translate_kdl_text(text)` parses the text and translates its nodes;
`translate_to_string(doc)` returns the text `file_text` of the
entries `translate_view` gives for the document's nodes, or exactly the error that
`translate_view` names; a template built from text reads back as that text
(`law_placeholder_template_round_trip`); captures in a named step are prefixed by
the step name (`law_capture_names`); a translated document gives each step name
once (`law_step_names_unique`) and one entry per request node
(`law_one_entry_per_request_node`).
