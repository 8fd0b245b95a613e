# continuum

A catalogue of a video archive kept on many disks: disks and their mount paths, media
roots on them, events (dated folders) and the cameras whose footage each event holds.

- `src/` is the library, written in Verus and proved: folder-name parsing, mount-path
  normalization, disk discovery and synchronization plans, the server's request
  decisions, schema migration plans, the command-line client's choices and tables,
  what it reads from server replies and from ffprobe output, and the desktop client's
  element tree, layout and frame merging.
- `tests/` runs the library on concrete values.
- `app/` holds the programs around it (HTTP server with SQLite, command-line client,
  OpenGL desktop client): input and output, databases, processes and drawing.
