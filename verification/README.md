# passthrough_fs

A file system that serves a directory of a Windows host to a Linux guest. Files are told
apart by their index and the serial number of their volume. What Windows has no place for,
such as owner, mode, extended attributes and security contexts, is kept in named streams.

The library asks nothing of the host itself. Each operation is a small machine: a step takes
the answer of the host to the last request and says what to ask next, or how the operation
ends. What a step does is stated by `Operation::leads_to` and proved with Verus, and so is
that no operation keeps a handle that it was given.

- `src/` the verified library
  - `config`, `fs`, `inode` the state of the file system
  - `path`, `text`, `number`, `time`, `nt`, `stat`, `dir`, `override_stat`, `xattr` values
    between the guest and the host
  - `host`, `operation` requests, answers, and what an operation is
  - `ops` the operations
- `app/` the calls of Windows, and the operations for a FUSE server
- `tests/` what the library does on given values
