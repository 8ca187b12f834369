//! Typed design tokens: every constant is a unit of trust that components
//! consume instead of inventing their own values. Tokens are emitted as
//! Tailwind class fragments, as CSS custom properties, and as a Rust
//! constant block for egui apps.

pub mod axes;
pub mod color;
pub mod density;
pub mod emit;
pub mod gradient_pool;
pub mod icons;
pub mod polish;
pub mod radius;
pub mod scale;
pub mod skins;
pub mod stock_photos;
pub mod style_packs;
