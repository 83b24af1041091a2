//! Which events are printed.
use vstd::prelude::*;

verus! {

/// Which events are printed. Printing everything at a high frame rate is
/// unreadable and slows the run down, so only a few are on by default.
#[derive(Clone, Copy, Debug, PartialEq, Eq, Structural)]
pub struct LoggingConfig {
    /// Print the decoder's path and command.
    pub debug_ffmpeg: bool,
    /// Print the size of each buffer allocated for decoder output.
    pub debug_buffer_allocation: bool,
    /// Print every buffer sent or received between threads.
    pub debug_buffer_transfer: bool,
    /// Print a message when each thread ends.
    pub debug_thread_exit: bool,
    /// Pass the decoder's log on to standard output.
    pub log_ffmpeg_stderr: bool,
}

impl LoggingConfig {
    /// Only the thread-exit messages are on.
    pub fn default() -> (r: LoggingConfig)
        ensures
            r == (LoggingConfig {
                debug_ffmpeg: false,
                debug_buffer_allocation: false,
                debug_buffer_transfer: false,
                debug_thread_exit: true,
                log_ffmpeg_stderr: false,
            }),
    {
        LoggingConfig {
            debug_thread_exit: true,
            debug_ffmpeg: false,
            debug_buffer_allocation: false,
            debug_buffer_transfer: false,
            log_ffmpeg_stderr: false,
        }
    }
}

} // verus!
