# onedark_nvim_rs

The One Dark colour scheme for Neovim, as a library whose logic is verified
with Verus, and the plugin shell that connects it to the editor.

- `src/palette.rs`: colours (`Color`, read by `Color::parse`), the palette of
  each style, and the merge of the user's colours into it.
- `src/config.rs`: the configuration, its defaults, and style toggling.
- `src/groups.rs`: the highlight groups that the scheme sets, as
  specifications over a palette and a configuration.
- `src/highlights.rs`: highlight groups and tables, the scheme's tables
  (`default`), and the editor commands that apply them (`setup`).
- `src/terminal.rs`: the terminal colour variables.
- `src/colors.rs`: palettes handed over by name from the Lua side.
- `src/util.rs`: reading the channels of a colour.
- `app/`: the Lua module, the editor calls, the global configuration, the
  deserialisable copies of the configuration types, and colour blending,
  which computes on floating point.
