# swift_file

Send a file to, or receive files from, another device on the local network:
the program starts a small HTTP server and prints a QR code with its link
(`http://{ip}:{port}/download/{id}` or `http://{ip}:{port}/receive`).

- `src/` is the verified library (Verus): port parsing and the port search,
  interface and address choice, the table of offered files, the commands and
  what they change, the answers to downloads and uploads, the names of
  received files and archive entries, the start-up text and its QR code,
  and the clean-up rule at shut-down.
- `app/` is the program around it: command-line parsing, sockets, the HTTP
  server, the file system and the ZIP writer.
- `tests/` exercises the library on concrete values.
