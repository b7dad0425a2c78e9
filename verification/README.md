# divvun_bundler

Builds installer packages for Divvun spell checkers: a MacDivvun service
bundle with its component and product packages on macOS, and NSIS
installers (built natively, or through Wine elsewhere) on Windows.

- `src/` is the library, verified with Verus: the property list and
  distribution texts, the NSIS scripts rendered from a template with
  named placeholders, the signing commands, the Windows and Wine paths,
  the command lines of `pkgbuild`, `productbuild` and `makensis`, the
  ordered steps of the macOS build, the step-by-step decisions of the
  Windows builds (`windows_build_step`), and the check whether a zip
  archive (such as a `.zhfst` speller) holds compressed entries.
- `app/` is the command-line program: it reads the arguments and the
  environment, touches the file system and runs the tools, carrying out
  the steps the library decides, in order.
- `tests/` runs the library on concrete values.

The NSIS script templates are given to the program with `--template`; they
use `{name}` for the values filled in and `{{`/`}}` for literal braces,
and must use every value they are given.
