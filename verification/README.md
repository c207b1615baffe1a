# resarch

A Verus library for showing the statistics that `sar` collects: the text reports of `sar`, the
reports of an older release of it, and the formats of `sadf` for other programs.

| Module | What it holds |
|---|---|
| `text` | decimal and hexadecimal numbers, padding, splitting, lists of texts |
| `doc` | documents: text with room for numbers |
| `model` | activities, plans, items and computed values |
| `clock`, `slice` | dates and times; which samples are close to a multiple of an interval |
| `sadf` | the formats `-d`, `-p`, `-r`, `-j`, `-x` and `-H`, their tables and their course |
| `sar_text` | the text report: headings, lines, averages, stretches between restarts, its course |
| `sar_el7` | the report of the older release |

A displayed value is a double. The library carries it as its bit pattern and decides where it
stands and in which form, and of a mean what is added up and what the sum is divided by; `app/`
writes the digits, reads the environment and the clock, and hands each block of a report the
records that it asks for. What is computed from the samples comes to the library as plain values.

The proof functions whose names start with `law_` state what holds of the library as a whole.
