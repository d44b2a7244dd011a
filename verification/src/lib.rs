//! A headless model of the Design Master window: which tab of the left panel
//! is active, what each panel shows for it, how the state is carried over a
//! restart, and where the bundled font goes in the font lists.
//!
//! Nothing here draws or reads input. A host renders what these functions
//! describe and hands the user's clicks back.

pub mod app;
pub mod fonts;
pub mod layout;
pub mod storage;
pub mod tab;

pub use app::{Action, Click, TemplateApp};
pub use fonts::{setup_custom_fonts, FontFamilies, CUSTOM_FONT};
pub use storage::StorageSlot;
pub use tab::LeftPanel;
