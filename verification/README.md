# loom

A design system as code: typed tokens, typed UI primitives that compose
them, tenant variable substitution, page renderers for terminals and
immediate-mode UIs, and lints that keep raw styling out of views. The
library in `src/` is verified with Verus; `app/` holds the edges.

## Layout

- `src/tokens/` — palette roles, spacing/breakpoint/font/radius scales,
  density tiers, polish tokens, style packs, gradient selection, Lucide
  icon markup, skins, the stock-photo manifest, and the CSS and egui
  token emitters.
- `src/components/` — HTML rendering of the UI primitives (badge,
  button, card, code shell, composer, footer, form controls, hero, link,
  modal, nav, picture, pull quote, section, editorial slots, toast,
  typography). Each `render` states the exact markup it returns.
- `src/icons.rs` — the icon registry.
- `src/variables.rs` — `{{ key }}` and `@asset` substitution from tenant
  tables.
- `src/cms.rs`, `src/tui.rs`, `src/gui.rs` — a typed page, its terminal
  rendering (styled lines, wrapped at 78 columns) and its immediate-mode
  rendering (a widget list).
- `src/lint/` — the Rust class-string lint and the CSS raw-value lint,
  over file paths and texts; regex matching goes through the `regex`
  crate.
- `src/text.rs` — string helpers shared by the modules.
- `app/` — directory walks and file reads for the lints and the photo
  manifest, JSON output, floating-point colour conversion, and drawing
  pages with ratatui and egui.
- `tests/` — behaviour tests of the library.
