//! The result of one uplink benchmark.

use vstd::prelude::*;
use crate::number::Number;

verus! {

/// Download and upload rate and round-trip time of one benchmark run.
#[derive(Clone, Copy, Debug, PartialEq, Eq, Structural)]
pub struct SpeedTest {
    pub download: Number,
    pub upload: Number,
    pub ping: Number,
}

impl SpeedTest {
    pub fn new(download: Number, upload: Number, ping: Number) -> (s: SpeedTest)
        ensures
            s == (SpeedTest { download, upload, ping }),
    {
        SpeedTest { download, upload, ping }
    }
}

} // verus!
