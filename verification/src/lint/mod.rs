//! Lints that keep raw styling out of code: Rust string literals that
//! chain several Tailwind utilities outside the sanctioned component
//! files, and CSS lines holding raw colours or spacing where a token
//! variable belongs. The walk over a directory and the file reads are the
//! caller's; these functions decide which paths are linted and what each
//! file's text yields.

pub mod css;
pub mod pattern;
pub mod rust;
