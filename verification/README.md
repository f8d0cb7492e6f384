# secure_file

Storage of secret-bearing text in local files, for a command line program.

A file holds plain text, or an envelope: a small JSON object that names its format, its version and
its protection, and carries the protected bytes in base64. On Windows the system's data protection
interface protects the text for the current user. Elsewhere it is sealed with AES-256-GCM, under a
key that PBKDF2 derives from what the host tells of itself.

- `src/` is the library, verified with Verus:
  - `envelope`: the status of a file, what is read from it, and what is written to it;
  - `software`: the cipher, the key, and the layout of a payload;
  - `armor`: base64;
  - `platform`: Windows' data protection interface, and who may open a file;
  - `error`: errors, their kinds and their messages;
  - `launch`: the stages of a launch of the program, its exit codes and its log;
  - `text`: small operations on text;
  - `laws`: what holds of protected files as a whole.
- `tests/` holds its tests.
- `app/` is the program: files on disk, JSON, the environment, and the commands.

The calls into other crates stand in functions marked `external_body`, each with a contract that says
what is believed of the call.
