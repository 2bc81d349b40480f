//! The template engines whose pages are rendered by verified code, and the
//! output buffer of sailfish.
pub mod horrorshow;
pub mod markup;
pub mod maud;
pub mod sailfish;
