//! The body of a proxy event or of a wire response.

use vstd::prelude::*;

verus! {

/// A request or response body as it crosses the gateway boundary: absent,
/// text, or raw bytes (sent base64-encoded on the wire by the host runtime).
#[derive(Debug, PartialEq)]
pub enum Body {
    /// An empty body.
    Empty,
    /// A body containing string data.
    Text(String),
    /// A body containing binary data.
    Binary(Vec<u8>),
}

impl Body {
    /// Whether the body holds no data at all.
    pub fn is_empty(&self) -> (r: bool)
        ensures
            r == match *self {
                Body::Empty => true,
                Body::Text(ref s) => s@.len() == 0,
                Body::Binary(ref b) => b@.len() == 0,
            },
    {
        match self {
            Body::Empty => true,
            Body::Text(s) => s.as_str().is_empty(),
            Body::Binary(b) => b.len() == 0,
        }
    }
}

} // verus!
