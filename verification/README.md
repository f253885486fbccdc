# velopack_bins (verified core)

The Windows front end of the Velopack installer and updater: the modern dialogs, the
splash/progress window, and the zip helpers. The logic lives in `src/` and is proved with
Verus; `app/` holds the Win32/GDI+ windows, file and registry access, and the
`windows_dialog_test` program that shows each dialog.

Modules of `src/`:

- `compression`: compression levels (always 0 to 9), the unzip progress reporter, zip entry
  names and the compressed-byte total announced before extracting.
- `theme`: theme names, the theme override and how the system theme is read from the registry.
- `geometry`: rectangles, points, hit tests and window centring.
- `dialog`, `dialog_content`: dialog results, buttons and the exact content of every dialog,
  including the silent-mode answers and the semantic-version rule of the repair dialog.
- `dialog_layout`, `dialog_style`: the dialog layout, hit testing, clicks, hover and colours.
- `splash`: the splash window's layout, colours, hover, and its progress and closing rules.
- `logo`: decoding the logo and converting it to premultiplied BGRA.
- `version`: semantic-version comparison.

Floating-point work (the DPI scale, window sizes, the progress bar's animation) stays in
`app/`, which hands the library the scaled integer measures.
