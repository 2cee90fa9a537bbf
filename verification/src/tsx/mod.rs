//! TypeScript/TSX transformations, over models of the parts of a module
//! that each transformation reads.

pub mod error;
pub mod file;
pub mod nextjs_visitor;
pub mod asset_visitor;
pub mod xlink;
pub mod dialog;
pub mod events;
pub mod figma_svg;
pub mod callbacks;
pub mod inject_uuid;
pub mod imports;
pub mod shadcn_ui;
pub mod framer_motion;
pub mod color_theme;
pub mod svg_react;
pub mod filter;
