# rushdown_definition_list

Definition lists (the PHP Markdown Extra syntax) for the rushdown Markdown
parser and HTML renderer.

```markdown
Apple
:   Pomaceous fruit of plants of the genus Malus in
    the family Rosaceae.

Orange
:   The fruit of an evergreen tree of the genus Citrus.
```

Layout:

- `src/` is the library, verified with Verus. `indent` states rushdown's
  indentation arithmetic; `parser` holds the decisions of the two block
  parsers (when a line opens, continues or closes a list or a definition,
  where the content starts, which lines become terms, which list becomes
  loose) with their laws; `render` holds the HTML fragments and the rule
  that keeps paragraphs of tight lists out of `<p>` tags; `ast` holds the
  node kinds.
- `app/` plugs the library into rushdown: the node kinds as extension data,
  the `BlockParser` and renderer implementations that read the document tree
  and the reader and carry out the library's decisions, and the two
  extensions `definition_list_parser_extension` and
  `definition_list_html_renderer_extension`.
- `tests/` exercises the library on concrete lines.
