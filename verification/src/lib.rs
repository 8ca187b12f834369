//! A design system as code: typed design tokens, typed UI primitives,
//! tenant substitution, page renderers for terminals and immediate-mode
//! UIs, and lints against raw styling, with their contracts proved by
//! Verus.

pub mod cms;
pub mod components;
pub mod gui;
pub mod icons;
pub mod lint;
pub mod text;
pub mod tokens;
pub mod tui;
pub mod variables;
