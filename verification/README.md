# prtgn

The logic of the `.prtgn` command-line tool, verified with Verus.

- `src/` is the library. Each function states what it returns in its
  contract, and the laws of the tool stand there as proof functions:
  - `text`, `decimal`: strings as character sequences (lines, words,
    splitting, joining, trimming) and decimal numbers, as the standard
    library reads and writes them;
  - `audio_text`: the text held by `.prtgn_wav` and `.prtgn_flac` files, and
    the law that reading it back gives what was written;
  - `convert`, `wav`, `flac`: which files a conversion reads and writes, and
    which conversions a request asks for;
  - `init` (with `text_editor`): the file that `init` opens and the editor's
    decisions;
  - `player`, `fox`, `wiki`: the decisions of the terminal screens;
  - `command`, `about`: the command a lone file argument opens and the help
    screen.
- `app/` is the program around it: argument parsing, files, audio, network
  and the terminal screens.
- `tests/` runs the library on concrete values.
