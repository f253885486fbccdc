//! Verified core of the Velopack Windows front-end binaries: compression settings, themes,
//! dialog and splash-screen layout, content and interaction rules, and logo preparation.
pub mod compression;
pub mod geometry;
pub mod theme;

pub use compression::CompressionLevel;
pub mod dialog;
pub mod version;
pub mod dialog_content;
pub mod dialog_layout;
pub mod dialog_style;
pub mod splash;
pub mod logo;
