# fst

A library for FST waveform files, verified with Verus, and `termwave`, a program that
draws the waveforms of the variables of such a file in the terminal.

- `src/codes.rs`: the numbered kinds of the format (scope, variable and attribute types,
  directions, file types), their numbers and names, each way.
- `src/hier.rs`: the entries of the hierarchy of a file, and their `Debug` text.
- `src/collect.rs`: choosing variables while walking the hierarchy, and collecting the
  changes of their values inside a time window.
- `src/render.rs`: the time axis and the two rows of the waveform of a variable.
- `src/text.rs`: string comparison, decimal numerals and other text helpers.
- `app/`: the program; it links the C reader of FST files (`fstapi`, with zlib), walks a
  file with it, and hands the library the entries and value changes it reads.
