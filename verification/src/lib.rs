pub mod text;
pub mod order;
pub mod decimal;
pub mod string_map;
pub mod keyed;
pub mod figma;
pub mod tailwind;
pub mod strategy;
pub mod generator;
pub mod nextjs;
pub mod html;
pub mod tsx;
pub mod ids;
pub mod paths;
pub mod html_links;
pub mod svg_extract;
pub mod html_assets;
pub mod md;
pub mod svgr;
pub mod figma_export;
pub mod svg_parser;
pub mod svg_postprocessor;
pub mod jsx;
pub mod shadcn;
pub mod figma_jsx;
pub mod rust_code;
pub mod figma_vectors;
pub mod raw_html;
pub mod md_events;
