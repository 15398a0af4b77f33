use render_backend::errors::{
    after_poll, apply_policy, poll_device, quit_message, state_after_step, state_step, ErrorType, RenderError,
    RenderErrorPolicy, RenderState, StateStep, DEVICE_REMOVED_FENCE_VALUE,
};

#[test]
fn poll_without_probe_fence_reports_nothing() {
    assert!(poll_device(None).is_none());
}

#[test]
fn removed_device_or_failed_probe_is_device_lost() {
    assert!(poll_device(Some(Ok(41))).is_none());
    let removed = poll_device(Some(Ok(DEVICE_REMOVED_FENCE_VALUE))).unwrap();
    assert_eq!(removed.ty, ErrorType::DeviceLost);
    let failed = poll_device(Some(Err("hung".to_string()))).unwrap();
    assert_eq!(failed.ty, ErrorType::DeviceLost);
    assert!(failed.description.ends_with("hung"));
}

fn error() -> RenderError {
    RenderError { ty: ErrorType::Validation, description: "bad".to_string() }
}

#[test]
fn state_machine_steps() {
    assert_eq!(state_step(&RenderState::Initializing, false), StateStep::RunStartup);
    assert_eq!(state_step(&RenderState::Ready, true), StateStep::Idle);
    assert_eq!(state_step(&RenderState::Errored(error()), false), StateStep::HandleError);
    assert_eq!(state_step(&RenderState::Reinitializing, true), StateStep::InstallResources);
    assert_eq!(state_step(&RenderState::Reinitializing, false), StateStep::AwaitResources);

    assert!(matches!(state_after_step(RenderState::Initializing, StateStep::RunStartup), RenderState::Ready));
    assert!(matches!(
        state_after_step(RenderState::Reinitializing, StateStep::InstallResources),
        RenderState::Initializing
    ));
    assert!(matches!(state_after_step(RenderState::Reinitializing, StateStep::AwaitResources), RenderState::Reinitializing));
}

#[test]
fn a_polled_error_replaces_the_state() {
    match after_poll(RenderState::Ready, Some(error())) {
        RenderState::Errored(e) => {
            assert_eq!(e.ty, ErrorType::Validation);
            assert_eq!(e.description, "bad");
        },
        _ => panic!("expected an error state"),
    }
    assert!(matches!(after_poll(RenderState::Ready, None), RenderState::Ready));
}

#[test]
fn policies_answer_an_error() {
    let (s, c) = apply_policy::<u8>(RenderState::Errored(error()), RenderErrorPolicy::Ignore);
    assert!(matches!(s, RenderState::Ready));
    assert_eq!(c, None);
    let (s, c) = apply_policy::<u8>(RenderState::Errored(error()), RenderErrorPolicy::StopRendering);
    assert!(matches!(s, RenderState::Errored(_)));
    assert_eq!(c, None);
    let (s, c) = apply_policy(RenderState::Errored(error()), RenderErrorPolicy::Recover(7u8));
    assert!(matches!(s, RenderState::Reinitializing));
    assert_eq!(c, Some(7));
}

#[test]
fn quit_message_names_the_error_type() {
    assert_eq!(quit_message(ErrorType::DeviceLost), "Quitting the application due to DeviceLost RenderError");
    assert_eq!(quit_message(ErrorType::OutOfMemory), "Quitting the application due to OutOfMemory RenderError");
}

#[test]
fn recovery_reinitializes_then_runs_startup() {
    let (state, creation) = apply_policy(RenderState::Errored(error()), RenderErrorPolicy::Recover("settings"));
    assert_eq!(creation, Some("settings"));
    let step = state_step(&state, false);
    assert_eq!(step, StateStep::AwaitResources);
    let state = state_after_step(state, step);
    let step = state_step(&state, true);
    assert_eq!(step, StateStep::InstallResources);
    let state = state_after_step(state, step);
    let step = state_step(&state, false);
    assert_eq!(step, StateStep::RunStartup);
    assert!(matches!(state_after_step(state, step), RenderState::Ready));
}
