//! Verified core of a "now playing" image widget: request options, the
//! response-cache policy, listen resolution, cover-art resolution and the
//! fitting of display text to a pixel budget.

pub mod cover;
pub mod fit;
pub mod listen;
pub mod options;
pub mod page;
pub mod response;
pub mod text;
pub mod widget;
