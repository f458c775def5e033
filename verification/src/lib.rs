//! Curation of a catalogue listing of video titles: raw `(title, url)` records
//! are screened, put in ordinal title order and labelled for presentation.

pub mod blacklist;
pub mod columns;
pub mod config;
pub mod curation;
pub mod decimal;
pub mod encoding;
pub mod extract;
pub mod movie;
pub mod order;
pub mod pages;
pub mod pattern;
pub mod similarity;
pub mod sorting;
pub mod text;
pub mod year;
