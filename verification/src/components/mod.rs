//! Typed UI primitives. Every prop is a closed enum and every class
//! string is composed from fixed fragments: no primitive can be given an
//! arbitrary class string. Each `render` returns the HTML text of the
//! element, its contract the exact markup.

pub mod badge;
pub mod button;
pub mod card;
pub mod code_shell;
pub mod composer;
pub mod modal;
pub mod toast;
pub mod hero;
pub mod nav;
pub mod footer;
pub mod form;
pub mod link;
pub mod section;
pub mod picture;
pub mod pull_quote;
pub mod typography;
pub mod slots;
