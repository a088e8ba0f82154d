use vstd::prelude::*;

use crate::msg_buf::{MsgBuf, keep_newest};

verus! {

/// How many persistent entries a context keeps unless it is built with another cap.
pub const DEFAULT_PERSISTENT_CAP: usize = 20;

/// Source code location of an entry.
pub struct SrcLoc {
    pub file: &'static str,
    pub line: u32,
    pub column: u32,
}

/// Persistent information entry with a frame stamp.
pub struct PerEntry {
    /// The frame this information was recorded on.
    pub frame: u32,
    /// The recorded text.
    pub info: String,
    /// Source code location of the entry, if any.
    pub src_loc: Option<SrcLoc>,
}

/// The debug state of an application: an immediate buffer for the current frame, a
/// persistent buffer of frame-stamped entries, and the frame counter that stamps them.
///
/// The host builds one at startup and hands it to whatever needs to record
/// debug information. The frame counter only moves forward, one step per `inc_frame`.
pub struct DebugCtx {
    immediate: MsgBuf<String>,
    persistent: MsgBuf<PerEntry>,
    frame_counter: u32,
    persistent_cap: usize,
}

/// The frame counter after one advance from `n`: one more, wrapping to 0 past `u32::MAX`.
pub open spec fn next_frame(n: u32) -> u32 {
    ((n + 1) % 0x1_0000_0000) as u32
}

/// The persistent entries `s` after `per` recorded `e` with the buffer's enable flag at
/// `enabled`: when enabled, `e` is appended and the newest `cap` entries are kept; when
/// disabled, nothing changes.
pub open spec fn per_entries(s: Seq<PerEntry>, enabled: bool, e: PerEntry, cap: nat) -> Seq<
    PerEntry,
> {
    if enabled {
        keep_newest(s.push(e), cap)
    } else {
        s
    }
}

impl DebugCtx {
    /// The buffer of messages for the current frame only.
    pub closed spec fn spec_immediate(&self) -> MsgBuf<String> {
        self.immediate
    }

    /// The buffer of messages that last between frames.
    pub closed spec fn spec_persistent(&self) -> MsgBuf<PerEntry> {
        self.persistent
    }

    /// The current frame.
    pub closed spec fn spec_frame(&self) -> u32 {
        self.frame_counter
    }

    /// How many persistent entries `per` keeps.
    pub closed spec fn spec_cap(&self) -> nat {
        self.persistent_cap as nat
    }

    /// Creates a context with both buffers empty and disabled, the frame counter at 0,
    /// and `DEFAULT_PERSISTENT_CAP` as the persistent cap.
    pub fn new() -> (r: Self)
        ensures
            r.spec_immediate()@ == Seq::<String>::empty(),
            r.spec_persistent()@ == Seq::<PerEntry>::empty(),
            !r.spec_immediate().spec_enabled(),
            !r.spec_persistent().spec_enabled(),
            r.spec_frame() == 0,
            r.spec_cap() == DEFAULT_PERSISTENT_CAP,
    {
        Self::with_cap(DEFAULT_PERSISTENT_CAP)
    }

    /// Creates a context like `new`, whose `per` keeps at most `cap` persistent entries.
    pub fn with_cap(cap: usize) -> (r: Self)
        ensures
            r.spec_immediate()@ == Seq::<String>::empty(),
            r.spec_persistent()@ == Seq::<PerEntry>::empty(),
            !r.spec_immediate().spec_enabled(),
            !r.spec_persistent().spec_enabled(),
            r.spec_frame() == 0,
            r.spec_cap() == cap,
    {
        DebugCtx {
            immediate: MsgBuf::new(false),
            persistent: MsgBuf::new(false),
            frame_counter: 0,
            persistent_cap: cap,
        }
    }

    /// Returns the buffer of messages for the current frame only.
    pub fn immediate(&self) -> (r: &MsgBuf<String>)
        ensures
            *r == self.spec_immediate(),
    {
        &self.immediate
    }

    /// Returns the buffer of messages for the current frame only, for pushing, clearing
    /// or switching it; the rest of the context is left as it was.
    pub fn immediate_mut(&mut self) -> (r: &mut MsgBuf<String>)
        ensures
            *r == old(self).spec_immediate(),
            final(self).spec_immediate() == *final(r),
            final(self).spec_persistent() == old(self).spec_persistent(),
            final(self).spec_frame() == old(self).spec_frame(),
            final(self).spec_cap() == old(self).spec_cap(),
    {
        &mut self.immediate
    }

    /// Returns the buffer of messages that last between frames.
    pub fn persistent(&self) -> (r: &MsgBuf<PerEntry>)
        ensures
            *r == self.spec_persistent(),
    {
        &self.persistent
    }

    /// Returns the buffer of messages that last between frames, for clearing, trimming
    /// or switching it; the rest of the context is left as it was.
    pub fn persistent_mut(&mut self) -> (r: &mut MsgBuf<PerEntry>)
        ensures
            *r == old(self).spec_persistent(),
            final(self).spec_persistent() == *final(r),
            final(self).spec_immediate() == old(self).spec_immediate(),
            final(self).spec_frame() == old(self).spec_frame(),
            final(self).spec_cap() == old(self).spec_cap(),
    {
        &mut self.persistent
    }

    /// Returns how many persistent entries `per` keeps.
    pub fn persistent_cap(&self) -> (r: usize)
        ensures
            r == self.spec_cap(),
    {
        self.persistent_cap
    }
}

/// Adds persistent information, stamped with the current frame.
///
/// While the persistent buffer is disabled this does nothing. Otherwise the entry is
/// appended and the oldest entries are dropped until at most the context's cap remain.
pub fn per(ctx: &mut DebugCtx, info: String, src_loc: Option<SrcLoc>)
    ensures
        final(ctx).spec_persistent()@ == per_entries(
            old(ctx).spec_persistent()@,
            old(ctx).spec_persistent().spec_enabled(),
            (PerEntry { frame: old(ctx).spec_frame(), info, src_loc }),
            old(ctx).spec_cap(),
        ),
        final(ctx).spec_persistent().spec_enabled() == old(ctx).spec_persistent().spec_enabled(),
        final(ctx).spec_immediate() == old(ctx).spec_immediate(),
        final(ctx).spec_frame() == old(ctx).spec_frame(),
        final(ctx).spec_cap() == old(ctx).spec_cap(),
{
    if ctx.persistent.enabled() {
        let entry = PerEntry { frame: frame(ctx), info, src_loc };
        ctx.persistent.push(entry);
        let cap = ctx.persistent_cap;
        ctx.persistent.trim_old(cap);
    }
}

/// Advances the frame counter by one, wrapping silently past `u32::MAX`. Call it once per frame.
pub fn inc_frame(ctx: &mut DebugCtx)
    ensures
        final(ctx).spec_frame() == next_frame(old(ctx).spec_frame()),
        final(ctx).spec_immediate() == old(ctx).spec_immediate(),
        final(ctx).spec_persistent() == old(ctx).spec_persistent(),
        final(ctx).spec_cap() == old(ctx).spec_cap(),
{
    let frame = ctx.frame_counter;
    ctx.frame_counter = frame.wrapping_add(1);
}

/// Returns the current value of the frame counter.
pub fn frame(ctx: &DebugCtx) -> (r: u32)
    ensures
        r == ctx.spec_frame(),
{
    ctx.frame_counter
}

} // verus!
