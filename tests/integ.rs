use gamedebug_core::{DEFAULT_PERSISTENT_CAP, DebugCtx, MsgBuf, PerEntry, SrcLoc, frame, inc_frame, per};

fn here(line: u32) -> Option<SrcLoc> {
    Some(SrcLoc { file: "tests/integ.rs", line, column: 5 })
}

fn per_dbg_i32(ctx: &mut DebugCtx, expr: &str, val: i32) -> i32 {
    per(ctx, format!("{}: {:#?}", expr, val), here(0));
    val
}

fn imm_dbg_i32(ctx: &mut DebugCtx, expr: &str, val: i32) -> i32 {
    if ctx.immediate().enabled() {
        ctx.immediate_mut().push(format!("tests/integ.rs:0: {}: {:#?}", expr, val));
    }
    val
}

fn infos(buf: &MsgBuf<PerEntry>) -> Vec<String> {
    let mut out = Vec::new();
    buf.for_each(|e| out.push(e.info.clone()));
    out
}

fn texts(buf: &MsgBuf<String>) -> Vec<String> {
    let mut out = Vec::new();
    buf.for_each(|m| out.push(m.clone()));
    out
}

#[test]
fn basic_macro_sanity_test() {
    let mut ctx = DebugCtx::new();
    per(&mut ctx, format!("Hi!"), here(179));
    assert_eq!(per_dbg_i32(&mut ctx, "42", 42), 42);
}

#[test]
fn test() {
    let mut ctx = DebugCtx::new();
    ctx.persistent_mut().toggle();
    ctx.immediate_mut().toggle();
    assert!(ctx.persistent().enabled());
    per(&mut ctx, format!("Hi!"), here(7));
    ctx.immediate_mut().push(format!("Hi!"));
    assert_eq!(per_dbg_i32(&mut ctx, "42", 42), 42);
    assert_eq!(imm_dbg_i32(&mut ctx, "42", 42), 42);
    imm_dbg_i32(&mut ctx, "2", 2);
    imm_dbg_i32(&mut ctx, "4", 4);
    imm_dbg_i32(&mut ctx, "6", 6);
    assert_eq!(ctx.persistent().len(), 2);
    assert_eq!(ctx.immediate().len(), 5);
}

#[test]
fn toggle_then_persistent_scenario() {
    let mut ctx = DebugCtx::new();
    assert!(!ctx.persistent().enabled());
    ctx.persistent_mut().toggle();
    assert!(ctx.persistent().enabled());
    per(&mut ctx, format!("Hi!"), here(60));
    let captured = per_dbg_i32(&mut ctx, "42", 42);
    assert_eq!(captured, 42);
    assert_eq!(infos(ctx.persistent()), vec![format!("Hi!"), format!("42: 42")]);
}

#[test]
fn immediate_disabled_then_enabled_scenario() {
    let mut ctx = DebugCtx::new();
    assert!(ctx.immediate().is_empty());
    assert!(!ctx.immediate().enabled());
    ctx.immediate_mut().push(format!("Hi!"));
    assert!(ctx.immediate().is_empty());
    assert_eq!(ctx.immediate().len(), 0);
    ctx.immediate_mut().set_enabled(true);
    ctx.immediate_mut().push(format!("Hi!"));
    assert_eq!(ctx.immediate().len(), 1);
    assert!(!ctx.immediate().is_empty());
}

#[test]
fn enabled_pushes_kept_in_order() {
    let mut b: MsgBuf<String> = MsgBuf::new(true);
    for i in 0..7 {
        b.push(format!("m{}", i));
    }
    assert_eq!(b.len(), 7);
    let want: Vec<String> = (0..7).map(|i| format!("m{}", i)).collect();
    assert_eq!(texts(&b), want);
}

#[test]
fn disabled_pushes_dropped() {
    let mut b: MsgBuf<String> = MsgBuf::new(true);
    b.push(format!("a"));
    b.set_enabled(false);
    b.push(format!("b"));
    b.push(format!("c"));
    assert_eq!(b.len(), 1);
    assert_eq!(texts(&b), vec![format!("a")]);
}

#[test]
fn clear_empties_enabled_and_disabled() {
    let mut b: MsgBuf<u32> = MsgBuf::new(true);
    b.push(1);
    b.push(2);
    b.clear();
    assert_eq!(b.len(), 0);
    assert!(b.is_empty());
    assert!(b.enabled());
    b.push(3);
    b.set_enabled(false);
    b.clear();
    assert!(b.is_empty());
    assert!(!b.enabled());
    b.clear();
    assert!(b.is_empty());
}

#[test]
fn trim_old_keeps_newest() {
    let mut b: MsgBuf<u32> = MsgBuf::new(true);
    for i in 0..10u32 {
        b.push(i);
    }
    b.trim_old(4);
    assert_eq!(b.len(), 4);
    let mut got = Vec::new();
    b.for_each(|x| got.push(*x));
    assert_eq!(got, vec![6, 7, 8, 9]);
    b.trim_old(10);
    assert_eq!(b.len(), 4);
    b.trim_old(4);
    assert_eq!(b.len(), 4);
    b.trim_old(0);
    assert!(b.is_empty());
}

#[test]
fn trim_old_works_while_disabled() {
    let mut b: MsgBuf<u32> = MsgBuf::new(true);
    b.push(1);
    b.push(2);
    b.push(3);
    b.set_enabled(false);
    b.trim_old(1);
    let mut got = Vec::new();
    b.for_each(|x| got.push(*x));
    assert_eq!(got, vec![3]);
}

#[test]
fn toggle_parity() {
    let mut b: MsgBuf<u32> = MsgBuf::new(false);
    b.toggle();
    assert!(b.enabled());
    b.toggle();
    assert!(!b.enabled());
    for _ in 0..6 {
        b.toggle();
    }
    assert!(!b.enabled());
    for _ in 0..5 {
        b.toggle();
    }
    assert!(b.enabled());
}

#[test]
fn frame_stamps_count_advances() {
    let mut ctx = DebugCtx::new();
    ctx.persistent_mut().set_enabled(true);
    assert_eq!(frame(&ctx), 0);
    per(&mut ctx, format!("first"), None);
    for _ in 0..3 {
        inc_frame(&mut ctx);
    }
    assert_eq!(frame(&ctx), 3);
    per(&mut ctx, format!("second"), here(1));
    let mut frames = Vec::new();
    ctx.persistent().for_each(|e| frames.push(e.frame));
    assert_eq!(frames, vec![0, 3]);
}

#[test]
fn src_loc_is_kept() {
    let mut ctx = DebugCtx::new();
    ctx.persistent_mut().set_enabled(true);
    per(&mut ctx, format!("x"), Some(SrcLoc { file: "a.rs", line: 12, column: 3 }));
    per(&mut ctx, format!("y"), None);
    let mut locs = Vec::new();
    ctx.persistent().for_each(|e| locs.push(e.src_loc.as_ref().map(|l| (l.file, l.line, l.column))));
    assert_eq!(locs, vec![Some(("a.rs", 12, 3)), None]);
}

#[test]
fn persistent_cap_keeps_newest_twenty() {
    let mut ctx = DebugCtx::new();
    assert_eq!(DEFAULT_PERSISTENT_CAP, 20);
    assert_eq!(ctx.persistent_cap(), 20);
    ctx.persistent_mut().set_enabled(true);
    for i in 0..25 {
        per(&mut ctx, format!("e{}", i), None);
    }
    assert_eq!(ctx.persistent().len(), 20);
    let want: Vec<String> = (5..25).map(|i| format!("e{}", i)).collect();
    assert_eq!(infos(ctx.persistent()), want);
}

#[test]
fn per_with_custom_cap() {
    let mut ctx = DebugCtx::with_cap(2);
    ctx.persistent_mut().set_enabled(true);
    per(&mut ctx, format!("a"), None);
    per(&mut ctx, format!("b"), None);
    per(&mut ctx, format!("c"), None);
    assert_eq!(infos(ctx.persistent()), vec![format!("b"), format!("c")]);
}

#[test]
fn per_while_disabled_adds_nothing() {
    let mut ctx = DebugCtx::new();
    per(&mut ctx, format!("a"), None);
    assert!(ctx.persistent().is_empty());
    assert!(ctx.immediate().is_empty());
    assert_eq!(frame(&ctx), 0);
}

#[test]
fn per_while_disabled_leaves_buffer_past_cap() {
    let mut ctx = DebugCtx::with_cap(1);
    ctx.persistent_mut().set_enabled(true);
    ctx.persistent_mut().push(PerEntry { frame: 0, info: format!("a"), src_loc: None });
    ctx.persistent_mut().push(PerEntry { frame: 0, info: format!("b"), src_loc: None });
    ctx.persistent_mut().set_enabled(false);
    per(&mut ctx, format!("c"), None);
    assert_eq!(infos(ctx.persistent()), vec![format!("a"), format!("b")]);
    ctx.persistent_mut().set_enabled(true);
    per(&mut ctx, format!("d"), None);
    assert_eq!(infos(ctx.persistent()), vec![format!("d")]);
}

#[test]
fn get_reads_by_position() {
    let mut b: MsgBuf<u32> = MsgBuf::new(true);
    b.push(10);
    b.push(20);
    b.push(30);
    assert_eq!(*b.get(0), 10);
    assert_eq!(*b.get(2), 30);
    b.trim_old(2);
    assert_eq!(*b.get(0), 20);
}
