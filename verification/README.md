# A Factory Game Launcher

A launcher that downloads, verifies, unpacks and starts the factory game
through Wine, with the game's background pictures from the GRYPHLINK API.

The decisions of the launcher live in a library verified with Verus (`src/`);
a thin program (`app/`) does the file, network and process work around it.

- `package` — the known game package: its 49 archive parts, their sizes,
  URLs, checksums and file names, and the launcher bootstrap query.
- `install` — the install as a state machine: it says what to check,
  download, delete, save and unpack, and is told what came of it.
- `checksum` — the checksum cache of archive parts, and the verdict on a
  part from its size, modification time and MD5.
- `hashing` — MD5 checksums in lower-case hex, whole or piece by piece.
- `sevenzip` — reading 7-Zip's output: progress percentages, lines for the
  debug log, and what is reported while it unpacks.
- `game` — starting the game through Wine, choosing a Wine to install, the
  Windows 7-Zip in the prefix, and what the window shows of an install.
- `background` — which background the API offers and how it is downloaded
  and prepared.
- `config` — the launcher's folders and the repair of configurations left
  by older launchers.
- `cli` — the command line and the log levels.
- `paths`, `text` — paths as text (joined as on Unix, spelled for Wine) and
  character-level string helpers.

`tests/` exercises the library on concrete values.
