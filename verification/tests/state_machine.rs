use wgsl_playground::builder::RetryPolicy;
use wgsl_playground::builder::SourceStep;
use wgsl_playground::builder::DEFAULT_RETRY_INTERVAL_MILLIS;
use wgsl_playground::state::sleep_budget_nanos;
use wgsl_playground::state::Mode;
use wgsl_playground::state::RenderState;
use wgsl_playground::state::FRAME_INTERVAL_NANOS;
use wgsl_playground::watch::emits_reload;
use wgsl_playground::watch::WatchEventKind;

#[test]
fn initial_state_runs_generation_zero() {
    let s = RenderState::new(600, 600);
    assert_eq!(s.mode, Mode::Running);
    assert_eq!(s.pipeline_generation, 0);
    assert_eq!(s.surface_width, 600);
    assert_eq!(s.surface_height, 600);
    assert_eq!(s.uniforms.window_w, 0);
    assert_eq!(s.uniforms.window_h, 0);
    assert_eq!(s.uniforms.time, 0);
    assert!(s.should_redraw());
}

#[test]
fn resize_to_zero_width_is_a_noop() {
    let mut s = RenderState::new(600, 400);
    s.resize(640, 480, 640f32.to_bits(), 480f32.to_bits());
    let before = s;
    let applied = s.resize(0, 500, 1f32.to_bits(), 2f32.to_bits());
    assert!(!applied);
    assert_eq!(s, before);
}

#[test]
fn resize_to_zero_height_is_a_noop() {
    let mut s = RenderState::new(600, 400);
    s.resize(640, 480, 640f32.to_bits(), 480f32.to_bits());
    let before = s;
    let applied = s.resize(500, 0, 1f32.to_bits(), 2f32.to_bits());
    assert!(!applied);
    assert_eq!(s, before);
}

#[test]
fn resize_with_positive_dimensions_applies() {
    let mut s = RenderState::new(600, 400);
    let applied = s.resize(800, 600, 800f32.to_bits(), 600f32.to_bits());
    assert!(applied);
    assert_eq!(s.surface_width, 800);
    assert_eq!(s.surface_height, 600);
    assert_eq!(s.uniforms.window_w, 800f32.to_bits());
    assert_eq!(s.uniforms.window_h, 600f32.to_bits());
    // The rest of the state is untouched.
    assert_eq!(s.mode, Mode::Running);
    assert_eq!(s.pipeline_generation, 0);
}

#[test]
fn gpu_error_pauses_and_keeps_pipeline() {
    let mut s = RenderState::new(600, 600);
    s.on_gpu_error();
    assert_eq!(s.mode, Mode::Paused);
    assert_eq!(s.pipeline_generation, 0);
    assert!(!s.should_redraw());
}

#[test]
fn reload_while_paused_resumes_even_on_failed_rebuild() {
    let mut s = RenderState::new(600, 600);
    s.on_gpu_error();
    assert_eq!(s.mode, Mode::Paused);
    let redraw = s.on_reload(false);
    assert!(redraw);
    assert_eq!(s.mode, Mode::Running);
    assert_eq!(s.pipeline_generation, 0);
    assert!(s.should_redraw());
}

#[test]
fn reload_while_paused_resumes_on_successful_rebuild() {
    let mut s = RenderState::new(600, 600);
    s.on_gpu_error();
    let redraw = s.on_reload(true);
    assert!(redraw);
    assert_eq!(s.mode, Mode::Running);
    assert_eq!(s.pipeline_generation, 1);
}

#[test]
fn failed_rebuild_keeps_previous_pipeline_active() {
    let mut s = RenderState::new(600, 600);
    s.on_reload(true);
    s.on_reload(true);
    assert_eq!(s.pipeline_generation, 2);
    s.on_reload(false);
    assert_eq!(s.pipeline_generation, 2);
    assert_eq!(s.mode, Mode::Running);
}

#[test]
fn broken_shader_then_fixed_shader_scenario() {
    // Start with a valid shader: the initial pipeline is generation 0.
    let mut s = RenderState::new(600, 600);
    assert!(s.should_redraw());

    // A save introduces a syntax error: the rebuild hands no new pipeline
    // over, and the driver's validation error arrives asynchronously.
    s.on_reload(false);
    s.on_gpu_error();
    assert_eq!(s.mode, Mode::Paused);
    assert!(!s.should_redraw());

    // A frame that still gets drawn uses the last good pipeline.
    assert_eq!(s.pipeline_generation, 0);
    let _bytes = s.begin_frame(1f32.to_bits());
    assert_eq!(s.pipeline_generation, 0);

    // The fix is saved: the rebuild succeeds, rendering resumes with the
    // new pipeline.
    let redraw = s.on_reload(true);
    assert!(redraw);
    assert_eq!(s.mode, Mode::Running);
    assert_eq!(s.pipeline_generation, 1);
    assert!(s.should_redraw());
}

#[test]
fn only_name_modify_events_emit_reload() {
    assert!(emits_reload(&WatchEventKind::NameModify));
    assert!(!emits_reload(&WatchEventKind::DataModify));
    assert!(!emits_reload(&WatchEventKind::MetadataModify));
    assert!(!emits_reload(&WatchEventKind::OtherModify));
    assert!(!emits_reload(&WatchEventKind::Create));
    assert!(!emits_reload(&WatchEventKind::Remove));
    assert!(!emits_reload(&WatchEventKind::Access));
    assert!(!emits_reload(&WatchEventKind::Other));
}

#[test]
fn default_retry_policy_waits_two_hundred_millis() {
    let p = RetryPolicy::default();
    assert_eq!(p.interval_millis, 200);
    assert_eq!(p.interval_millis, DEFAULT_RETRY_INTERVAL_MILLIS);
}

#[test]
fn unreadable_source_retries_then_compiles_first_read() {
    // An editor's atomic save leaves the file unreadable briefly; the
    // builder retries at its interval and compiles the rewritten text.
    let p = RetryPolicy::default();
    match p.next_step(None) {
        SourceStep::RetryAfterMillis(ms) => assert_eq!(ms, 200),
        SourceStep::Compile(_) => panic!("a failed read must not compile"),
    }
    match p.next_step(None) {
        SourceStep::RetryAfterMillis(ms) => assert_eq!(ms, 200),
        SourceStep::Compile(_) => panic!("a failed read must not compile"),
    }
    let text = String::from("@fragment fn fs_main() -> @location(0) vec4<f32> { return vec4<f32>(1.0); }");
    match p.next_step(Some(text.clone())) {
        SourceStep::Compile(t) => assert_eq!(t, text),
        SourceStep::RetryAfterMillis(_) => panic!("a successful read must compile"),
    }
}

#[test]
fn shrunk_retry_interval_is_respected() {
    let p = RetryPolicy { interval_millis: 5 };
    match p.next_step(None) {
        SourceStep::RetryAfterMillis(ms) => assert_eq!(ms, 5),
        SourceStep::Compile(_) => panic!("a failed read must not compile"),
    }
}

#[test]
fn frame_pacing_sleeps_the_remainder() {
    assert_eq!(sleep_budget_nanos(0), FRAME_INTERVAL_NANOS);
    assert_eq!(sleep_budget_nanos(10_000_000), 6_666_667);
    assert_eq!(sleep_budget_nanos(FRAME_INTERVAL_NANOS - 1), 1);
    assert_eq!(sleep_budget_nanos(FRAME_INTERVAL_NANOS), 0);
    assert_eq!(sleep_budget_nanos(u64::MAX), 0);
}
