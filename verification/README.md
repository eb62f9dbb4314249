# bit7z_archiver

A viewer and editor for compressed archives (7z, zip, tar and its
compressed forms, rar for reading), built on the 7-Zip library through a
small C bridge.

The library (`src/`) is written in Verus and proved: its functions carry
`requires`/`ensures` contracts, and `src/laws.rs` states and proves
properties that span several operations.

- `src/domain`: archive formats, entries, handles and their ids, passwords,
  test results, preferences and the repository port (`ArchiveRepository`)
  with its errors.
- `src/application`: the use cases over a repository: open, extract,
  preview, test (entry by entry, with CRC-32), add, delete, rename, new
  folder, new file, open an entry.
- `src/adapters`: the decisions of the library-backed repository (writer
  formats, paging, totals, test results, overwrite answers), the archive
  browser's state (navigation, listing order, filter, selection, jobs),
  dialogs, menus, property sheets and progress.
- `src/text.rs`: numbers and text (decimal, hexadecimal, octal, UTF-8).
- `src/sizes.rs`: byte counts as the dialogs write them ("1.5 KB",
  "2.00 GB"), computed on integers with the rounding of the double
  arithmetic they are defined by.
- `src/cli.rs`, `src/instance.rs`: the parsed command line with the hex dump
  of previews, and the per-archive lock key.

`app/` is the program around the library: command-line parsing, the
repository over the C bridge, background workers, the preferences file and
what needs floating point. `tests/` exercises the library.
