//! The render loop's reaction to the shared shutdown flag.
//!
//! One process-wide boolean, read with sequentially-consistent ordering,
//! signals shutdown: the main thread clears it on a quit event and joins the
//! worker; the worker reads it once per frame and must leave its loop on the
//! first read that comes back false.  The reads themselves are the shell's;
//! this module fixes what the worker does with them: given the sequence of
//! values the flag reads produced, exactly the frames before the first false
//! read are rendered.

use vstd::prelude::*;

verus! {

/// How many frames the worker renders for the given sequence of per-frame
/// flag reads: one frame per leading true read, and the loop exits on the
/// first false read.  In particular, once the flag is cleared the worker
/// leaves within a bounded number of frames — at the latest with the read
/// that first sees it false.
pub fn frames_until_shutdown(flag_reads: &Vec<bool>) -> (frames: usize)
    ensures
        frames <= flag_reads@.len(),
        forall|i: int| 0 <= i < frames ==> flag_reads@[i],
        frames < flag_reads@.len() ==> !flag_reads@[frames as int],
{
    let mut frames: usize = 0;
    while frames < flag_reads.len()
        invariant
            frames <= flag_reads@.len(),
            forall|i: int| 0 <= i < frames ==> flag_reads@[i],
        decreases flag_reads@.len() - frames,
    {
        if !flag_reads[frames] {
            return frames;
        }
        frames = frames + 1;
    }
    frames
}

} // verus!
