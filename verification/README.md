# hxcfe

A library around libhxcfe, the HxC Floppy Emulator library, that reads,
converts and writes floppy disk images, with a command-line converter on top.

The library (`src/`) is verified with Verus. It holds the part of the work
that is decided in Rust: the identifier types and their numbering, the
filesystem type table, libhxcfe's status codes and how each call's outcome
is read, the rule for choosing a loader, the steps of loading and saving an
image, sector records and which of them each value frees, directory
entries, the converter's choice of command from its options, and the
steps, messages and outcomes of its directory listing and of getting a file
out of an image or putting one into it. Every call into libhxcfe is made outside the
library: the library's functions take what libhxcfe returned as arguments.

`app/` is the converter program: its options (clap), the libhxcfe C
declarations, the objects that own libhxcfe resources and free them, and the
file I/O. `tests/` runs the library on concrete values.
