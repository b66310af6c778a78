//! Message translation: catalogues of message templates by locale, domain
//! and id, and a formatter that fills placeholders (`{name}`, `{0}`, `{}`,
//! `{?}`) and picks plural forms by a count (`{0} none | {1} one | many`).
pub mod catalogue;
pub mod context;
pub mod error;
pub mod formatter;
pub mod loader;
pub mod locale;
pub mod table;
pub mod text;
pub mod translator;

pub use crate::translator::Translator;
