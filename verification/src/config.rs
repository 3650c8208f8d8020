//! How a stream is set up.

use vstd::prelude::*;

verus! {

/// The settings of a stream.
#[derive(Debug)]
pub struct StreamConfig {
    /// The media type that the source has to send.
    pub content_type: String,
    pub bitrate: usize,
    pub max_conns: usize,
    pub password: String,
    /// The number of chunks that wait for slow listeners.
    pub buffer_size: usize,
}

} // verus!
