use wgpu_core::context::{Context, Diagnostic, Error};

#[test]
fn new_context_is_empty() {
    let ctx = Context::new();
    assert!(ctx.is_empty());
    assert_eq!(ctx.iter().len(), 0);
    assert_eq!(ctx.interned_traces(), 0);
}

#[test]
fn nested_enter_leave_restores_empty_trace() {
    let mut ctx = Context::new();
    let a = ctx.enter("a");
    let b = ctx.enter("b");
    ctx.leave(b);
    ctx.leave(a);
    ctx.capture(Diagnostic::StageError("bad stage".to_string()));
    let drained = ctx.drain();
    assert_eq!(drained.len(), 1);
    let trace = drained[0].0.as_ref().unwrap();
    assert_eq!(trace.to_string(), "");
}

#[test]
fn capture_records_field_path_with_index() {
    let mut ctx = Context::new();
    let targets = ctx.enter("colorTargets");
    ctx.index(2);
    let format = ctx.enter("format");
    let err = ctx.report(Diagnostic::CreateRenderPipelineError("format".to_string()));
    let _ = err;
    ctx.leave(format);
    ctx.leave(targets);
    let drained = ctx.drain();
    assert_eq!(drained.len(), 1);
    assert_eq!(drained[0].0.as_ref().unwrap().to_string(), "colorTargets[2].format");
    assert_eq!(
        drained[0].1,
        Diagnostic::CreateRenderPipelineError("format".to_string())
    );
    assert!(ctx.is_empty());
}

#[test]
fn index_renders_multi_digit_numbers() {
    let mut ctx = Context::new();
    let entries = ctx.enter("entries");
    ctx.index(1207);
    ctx.capture(Diagnostic::DeviceError("lost".to_string()));
    ctx.leave(entries);
    let drained = ctx.drain();
    assert_eq!(drained[0].0.as_ref().unwrap().to_string(), "entries[1207]");
}

#[test]
fn index_without_entered_field_changes_nothing() {
    let mut ctx = Context::new();
    ctx.index(4);
    ctx.capture(Diagnostic::MissingFeatures("f".to_string()));
    let drained = ctx.drain();
    assert_eq!(drained[0].0.as_ref().unwrap().to_string(), "");
}

#[test]
fn same_path_shares_one_interned_trace() {
    let mut ctx = Context::new();
    let layout = ctx.enter("layout");
    ctx.capture(Diagnostic::CreateBindGroupLayoutError("first".to_string()));
    ctx.capture(Diagnostic::CreatePipelineLayoutError("second".to_string()));
    assert_eq!(ctx.interned_traces(), 1);
    ctx.leave(layout);
    let drained = ctx.drain();
    assert_eq!(drained.len(), 2);
    let t0 = drained[0].0.as_ref().unwrap().to_string();
    let t1 = drained[1].0.as_ref().unwrap().to_string();
    assert_eq!(t0, "layout");
    assert_eq!(t0, t1);
    assert_eq!(
        drained[0].1,
        Diagnostic::CreateBindGroupLayoutError("first".to_string())
    );
    assert_eq!(
        drained[1].1,
        Diagnostic::CreatePipelineLayoutError("second".to_string())
    );
}

#[test]
fn same_path_reached_again_reuses_interned_trace() {
    let mut ctx = Context::new();
    let a = ctx.enter("stage");
    ctx.capture(Diagnostic::StageError("one".to_string()));
    ctx.leave(a);
    let other = ctx.enter("other");
    ctx.capture(Diagnostic::StageError("two".to_string()));
    ctx.leave(other);
    let again = ctx.enter("stage");
    ctx.capture(Diagnostic::StageError("three".to_string()));
    ctx.leave(again);
    assert_eq!(ctx.interned_traces(), 2);
    let drained = ctx.drain();
    let texts: Vec<String> = drained
        .iter()
        .map(|d| d.0.as_ref().unwrap().to_string())
        .collect();
    assert_eq!(texts, vec!["stage", "other", "stage"]);
}

#[test]
fn iter_lists_diagnostics_in_order() {
    let mut ctx = Context::new();
    ctx.capture(Diagnostic::MissingDownlevelFlags("x".to_string()));
    ctx.capture(Diagnostic::ImplicitLayoutError("y".to_string()));
    let all = ctx.iter();
    assert_eq!(all.len(), 2);
    assert_eq!(*all[0], Diagnostic::MissingDownlevelFlags("x".to_string()));
    assert_eq!(*all[1], Diagnostic::ImplicitLayoutError("y".to_string()));
    assert!(!ctx.is_empty());
}

#[test]
fn result_passes_success_through() {
    let mut ctx = Context::new();
    let r = ctx.result::<u32>(Ok(7));
    assert!(matches!(r, Ok(7)));
    assert!(ctx.is_empty());
}

#[test]
fn result_captures_error() {
    let mut ctx = Context::new();
    let r = ctx.result::<u32>(Err(Diagnostic::CreateComputePipelineError("c".to_string())));
    assert!(r.is_err());
    assert!(!ctx.is_empty());
    let drained = ctx.drain();
    assert_eq!(
        drained[0].1,
        Diagnostic::CreateComputePipelineError("c".to_string())
    );
}

#[test]
fn try_block_fails_when_success_leaves_diagnostics() {
    let mut ctx = Context::new();
    let r = ctx.try_block(|c: &mut Context| {
        c.capture(Diagnostic::DeviceError("forgotten".to_string()));
        Ok(3u32)
    });
    assert!(r.is_err());
    assert_eq!(ctx.iter().len(), 1);
    assert_eq!(*ctx.iter()[0], Diagnostic::DeviceError("forgotten".to_string()));
}

#[test]
fn try_block_keeps_clean_success() {
    let mut ctx = Context::new();
    let r = ctx.try_block(|_c: &mut Context| Ok(3u32));
    assert!(matches!(r, Ok(3)));
}

#[test]
fn try_block_propagates_failure() {
    let mut ctx = Context::new();
    let r = ctx.try_block(|c: &mut Context| -> Result<u32, Error> {
        Err(c.report(Diagnostic::StageError("s".to_string())))
    });
    assert!(r.is_err());
    assert_eq!(ctx.iter().len(), 1);
}

#[test]
fn finish_block_rejects_success_with_pending_diagnostics() {
    let mut ctx = Context::new();
    ctx.capture(Diagnostic::DeviceError("pending".to_string()));
    assert!(ctx.finish_block::<u32>(Ok(1)).is_err());
    let mut clean = Context::new();
    assert!(matches!(clean.finish_block::<u32>(Ok(1)), Ok(1)));
}
