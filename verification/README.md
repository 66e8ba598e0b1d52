# oxide_sloc

The logic behind OxideSLOC's local web workbench and its saved reports, written in Rust and
verified with Verus.

- `src/` is the library. Every function states what it returns and is proved to do so; where the
  platform decides, as on how a path is cut or whether it is absolute, it states what holds on all
  of them. What holds of several functions together is stated by the public proof functions named
  `law_...`. Proofs rest on what is said of a few outside functions: askama's escaping in `html`,
  and in `text` and `paths` four functions of the standard library.
- `tests/` runs the library on concrete values.
- `app/` is ordinary Rust around the library: the web server, files, directories, and the browser
  that prints a report to PDF. The line counter itself is handed to it as an `Analyzer`.

| Module | What it holds |
| --- | --- |
| `text`, `html` | text, numbers, and escaping |
| `paths`, `forms` | how paths are shown and named, and what form fields mean |
| `classify`, `order`, `tree`, `preview` | the preview of what a scan would count |
| `model` | configuration and result of an analysis |
| `report`, `report_text` | the saved report |
| `pages`, `web_text` | the pages of the workbench |
| `browser`, `pdf` | finding a browser, and the steps of printing with it |
| `artifacts` | saving, remembering and serving the files of a run |
| `analyze` | from a posted form to the answer |

The library does no input or output. Where reading or writing alternates with decisions, a
function takes what happened and returns what to do next.
