//! Discovery and decoding of buoy observations published by the National
//! Data Buoy Center: which station files exist, and what their fixed-width
//! text bodies hold.
//!
//! Nothing here fetches. The functions of [`urls`] say where a page or a
//! file lies; [`listing`] and [`crawl`] read the listing pages, [`decoders`]
//! the observation files, and [`station`] joins the roster of stations with
//! the files found.

pub mod crawl;
pub mod data_type;
pub mod decoders;
pub mod gather;
pub mod lines;
pub mod listing;
pub mod number;
pub mod records;
pub mod schema;
pub mod sentinel;
pub mod station;
pub mod text;
pub mod timestamp;
pub mod urls;
