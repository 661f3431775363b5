# gateway

The tool layer of a research agent for A-share, US and crypto markets:
what each tool accepts, which requests it sends to its data sources, how
it reads their tabular answers, and what it writes back to the model.

The library under `src/` is verified with Verus. Every public function
states its result in its contract, over `Seq<char>` texts, a `Json`
value model and views of the library's own types; laws that relate
several functions (the PDF page cache, the report throttle, the merge
of research reports, the vendor fallback chain, the ordering of dated
events) are public proof functions beside the code they speak of.

- `text`, `json`, `table`, `tushare`: characters, decimal numbers and
  dates; the JSON model and its printing; the rows of tabular answers.
- `tools`, `tool_args`, `vendor_chain`, `coverage`: the tool registry and
  dispatch, argument checking, the vendor fallback chain, and the
  missing-dimension and source bookkeeping of a reply.
- one module per tool (`get_*`, `read_pdf`, `recent_actions`,
  `research_sentiment`, `sec_filing`, `stock_overview`, ...).

`app/` holds what the verifier does not see: network and file I/O, the
process-wide cache and throttle, conversion to and from `serde_json`,
and the reports that compute in floating point. `tests/` runs the
library on concrete values.
