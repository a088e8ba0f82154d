//! Debug-message buffers for real-time applications: an immediate buffer for the
//! current frame and a persistent buffer of frame-stamped entries.
//!
//! This is only the core: presenting the recorded information is up to the host.
mod debug_ctx;
mod laws;
mod msg_buf;

pub use debug_ctx::{
    DEFAULT_PERSISTENT_CAP, DebugCtx, PerEntry, SrcLoc, frame, inc_frame, next_frame, per,
    per_entries,
};
pub use msg_buf::{MsgBuf, gated_push, keep_newest};
pub use laws::{
    advanced, lemma_advances_count, lemma_disabled_pushes_keep, lemma_enabled_pushes_append,
    lemma_frame_stamp, lemma_persistent_cap, lemma_toggle_parity, lemma_trim_keeps_newest,
    per_all, push_all, toggled,
};
