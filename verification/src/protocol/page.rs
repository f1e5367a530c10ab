//! Navigation, lifecycle and screenshots of the `Page` domain.
use vstd::prelude::*;

pub mod events;
pub mod methods;

verus! {

/// The format a caller asks a screenshot in; JPEG with an optional quality
/// from 0 to 100.
#[derive(Debug, PartialEq)]
pub enum ScreenshotFormat {
    JPEG(Option<u8>),
    PNG,
}

/// The format as the command names it, quality apart.
#[derive(Debug, PartialEq)]
pub enum InternalScreenshotFormat {
    JPEG,
    PNG,
}

/// A region of the page. The library passes the numbers on and computes
/// nothing with them, so it leaves their type to the caller.
#[derive(Debug, PartialEq)]
pub struct Viewport<N> {
    pub x: N,
    pub y: N,
    pub width: N,
    pub height: N,
    pub scale: N,
}

} // verus!
