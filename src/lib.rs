//! Style derivation for a dark terminal-UI theme.
//!
//! - `color`: colours, luminance, the light/dark text decision and darkening.
//! - `palette`: the colour ramps of a theme and the colours derived from them.
//! - `style`: a foreground/background pair with attributes.
//! - `widgets`: one style record per widget kind.
//! - `theme`: a palette with a name, answering every style query.
//! - `catalog`: the shipped themes and lookup by name.
//! - `config`: editor settings as stored key/value text.

pub mod catalog;
pub mod color;
pub mod config;
pub mod palette;
pub mod style;
pub mod theme;
pub mod widgets;
