# lazy-pregen

A command line wrapper around a Minecraft server that pregenerates chunks.

The chunks are generated in square rings around the origin. The progress is kept
in `LazyPregen.lock`, the settings in `LazyPregen.toml`.

## Layout

- `src/` is a verified library. It holds every decision about the pregeneration:
  the order of the chunks (`walk`, `state`), what is left to do for a radius
  (`controller`, `lock`), the dialogue with the server (`console`, `startup`,
  `generate`, `commands`), the settings (`config`, `dimensions`) and the form of
  log records (`logging`).
  `walk` and `run` state and prove what holds of whole pregenerations.
- `app/` is the program around it, which owns the files, threads and processes.
- `tests/` holds tests of the library.

## Usage

```
lazy-pregen [DIRECTORY]
```

If no directory is specified, it defaults to the current working directory.
