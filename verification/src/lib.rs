//! Verified core of the e-ink display stack: protocol values, compositor
//! bookkeeping, capture decisions, panel-controller command planning and
//! the small encodings these parts share.
//!
//! Each module states its operations over plain values; the graphics, window
//! and driver calls around them are made by the caller with the values these
//! functions compute.
pub mod text;
pub mod composer;
pub mod flinger;
pub mod capture;
pub mod tcon;
pub mod display;
pub mod iddcx;
pub mod topic;
pub mod logger;
pub mod pipe;
pub mod window;
pub mod iterable;
pub mod driver;
