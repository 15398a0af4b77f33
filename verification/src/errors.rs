//! The renderer's error state machine: device-removal detection, the
//! policy a render error is answered with, and the renderer state each
//! frame.

use vstd::prelude::*;

verus! {

/// The kind of a render error.
#[derive(Clone, Copy, Debug, PartialEq, Eq, Structural)]
pub enum ErrorType {
    Internal,
    OutOfMemory,
    Validation,
    DeviceLost,
}

/// An error encountered while rendering.
#[derive(Clone, Debug)]
pub struct RenderError {
    pub ty: ErrorType,
    pub description: String,
}

/// How the renderer answers an error; `C` is how to create a renderer
/// again.
#[derive(Clone, Copy, Debug, PartialEq, Eq)]
pub enum RenderErrorPolicy<C> {
    /// Pretend nothing happened and render on.
    Ignore,
    /// Keep the app alive but stop rendering; the error stays.
    StopRendering,
    /// Recreate the renderer.
    Recover(C),
}

/// The state of the renderer.
#[derive(Clone, Debug)]
pub enum RenderState {
    Initializing,
    Ready,
    Errored(RenderError),
    Reinitializing,
}

/// The completed value a removed device's fence reports.
pub const DEVICE_REMOVED_FENCE_VALUE: u64 = u64::MAX;

/// The description of a removed device.
pub open spec fn device_removed_description() -> Seq<char> {
    "Diligent D3D12 device removed: IFence::GetCompletedValue returned UINT64_MAX"@
}

/// The description of a failed probe, before the failure's own message.
pub open spec fn probe_failed_prefix() -> Seq<char> {
    "Diligent device-removal probe failed (fence poll): "@
}

/// The device-removal probe: the result of reading the probe fence's
/// completed value (`None` when there is no probe fence). A removed device
/// (the maximal value) and a failed read are both a lost device.
pub fn poll_device(probe: Option<Result<u64, String>>) -> (r: Option<RenderError>)
    ensures
        match probe {
            None => r is None,
            Some(Ok(v)) => if v == DEVICE_REMOVED_FENCE_VALUE {
                r matches Some(e) && e.ty == ErrorType::DeviceLost && e.description@ == device_removed_description()
            } else {
                r is None
            },
            Some(Err(msg)) => r matches Some(e) && e.ty == ErrorType::DeviceLost
                && e.description@ == probe_failed_prefix() + msg@,
        },
{
    match probe {
        None => None,
        Some(Ok(v)) => {
            if v == DEVICE_REMOVED_FENCE_VALUE {
                Some(RenderError {
                    ty: ErrorType::DeviceLost,
                    description: String::from_str("Diligent D3D12 device removed: IFence::GetCompletedValue returned UINT64_MAX"),
                })
            } else {
                None
            }
        },
        Some(Err(e)) => {
            let mut description = String::from_str("Diligent device-removal probe failed (fence poll): ");
            description.append(e.as_str());
            Some(RenderError { ty: ErrorType::DeviceLost, description })
        },
    }
}

/// What one frame of the state machine does.
#[derive(Clone, Copy, Debug, PartialEq, Eq, Structural)]
pub enum StateStep {
    /// Run the startup schedule; the renderer becomes ready.
    RunStartup,
    /// Nothing to do.
    Idle,
    /// Ask the error handler for a policy.
    HandleError,
    /// Install the recreated render resources; the renderer initializes.
    InstallResources,
    /// The recreated resources are not there yet: wait.
    AwaitResources,
}

/// The step of a frame, from the state (after the device poll) and whether
/// recreated render resources are waiting.
pub open spec fn state_step_spec(state: RenderState, resources_ready: bool) -> StateStep {
    match state {
        RenderState::Initializing => StateStep::RunStartup,
        RenderState::Ready => StateStep::Idle,
        RenderState::Errored(_) => StateStep::HandleError,
        RenderState::Reinitializing => if resources_ready { StateStep::InstallResources } else { StateStep::AwaitResources },
    }
}

/// The step of a frame, from the state (after the device poll) and whether
/// recreated render resources are waiting.
pub fn state_step(state: &RenderState, resources_ready: bool) -> (s: StateStep)
    ensures
        s == state_step_spec(*state, resources_ready),
{
    match state {
        RenderState::Initializing => StateStep::RunStartup,
        RenderState::Ready => StateStep::Idle,
        RenderState::Errored(_) => StateStep::HandleError,
        RenderState::Reinitializing => if resources_ready { StateStep::InstallResources } else { StateStep::AwaitResources },
    }
}

/// The state of the renderer before the frame's step: a device error
/// replaces it.
pub fn after_poll(state: RenderState, polled: Option<RenderError>) -> (s: RenderState)
    ensures
        match polled {
            Some(e) => s matches RenderState::Errored(x) && x.ty == e.ty && x.description@ == e.description@,
            None => s == state,
        },
{
    match polled {
        Some(e) => RenderState::Errored(e),
        None => state,
    }
}

/// The state after a step: startup makes the renderer ready, installed
/// resources make it initialize again, the other steps keep the state.
pub open spec fn state_after_step_spec(state: RenderState, step: StateStep) -> RenderState {
    match step {
        StateStep::RunStartup => RenderState::Ready,
        StateStep::InstallResources => RenderState::Initializing,
        _ => state,
    }
}

/// The state after a step: startup makes the renderer ready, installed
/// resources make it initialize again, the other steps keep the state.
pub fn state_after_step(state: RenderState, step: StateStep) -> (s: RenderState)
    ensures
        s == state_after_step_spec(state, step),
{
    match step {
        StateStep::RunStartup => RenderState::Ready,
        StateStep::InstallResources => RenderState::Initializing,
        _ => state,
    }
}

/// The state a policy leaves an errored renderer in.
pub open spec fn policy_state_spec<C>(state: RenderState, policy: RenderErrorPolicy<C>) -> RenderState {
    match policy {
        RenderErrorPolicy::Ignore => RenderState::Ready,
        RenderErrorPolicy::StopRendering => state,
        RenderErrorPolicy::Recover(_) => RenderState::Reinitializing,
    }
}

/// What a policy does to an errored renderer: ignoring makes it ready,
/// recovering makes it reinitialize (with the creation settings to
/// recreate it from), stopping keeps the error.
pub fn apply_policy<C>(state: RenderState, policy: RenderErrorPolicy<C>) -> (r: (RenderState, Option<C>))
    ensures
        r.0 == policy_state_spec(state, policy),
        r.1 == match policy {
            RenderErrorPolicy::Recover(c) => Some(c),
            _ => None,
        },
{
    match policy {
        RenderErrorPolicy::Ignore => (RenderState::Ready, None),
        RenderErrorPolicy::StopRendering => (state, None),
        RenderErrorPolicy::Recover(c) => (RenderState::Reinitializing, Some(c)),
    }
}

/// Recovery brings an errored renderer back: the `Recover` policy makes it
/// reinitialize; it waits while the recreated resources are not there;
/// once they are, they are installed, and the next frame runs the startup
/// schedule, after which the renderer is ready.
pub proof fn lemma_recovery_cycle<C>(error: RenderError, creation: C)
    ensures
        ({
            let errored = RenderState::Errored(error);
            let reinit = policy_state_spec(errored, RenderErrorPolicy::Recover(creation));
            let waiting = state_after_step_spec(reinit, state_step_spec(reinit, false));
            let installed = state_after_step_spec(waiting, state_step_spec(waiting, true));
            &&& state_step_spec(errored, false) == StateStep::HandleError
            &&& reinit == RenderState::Reinitializing
            &&& waiting == RenderState::Reinitializing
            &&& installed == RenderState::Initializing
            &&& state_after_step_spec(installed, state_step_spec(installed, false)) == RenderState::Ready
        }),
{
}

/// Stopping keeps the error: the next frame asks the error handler again.
/// Ignoring makes the renderer ready, and a ready renderer stays ready.
pub proof fn lemma_stop_rendering_asks_again<C>(error: RenderError, resources_ready: bool)
    ensures
        ({
            let errored = RenderState::Errored(error);
            let stopped = policy_state_spec(errored, RenderErrorPolicy::<C>::StopRendering);
            &&& stopped == errored
            &&& state_step_spec(stopped, resources_ready) == StateStep::HandleError
            &&& policy_state_spec(errored, RenderErrorPolicy::<C>::Ignore) == RenderState::Ready
            &&& state_after_step_spec(RenderState::Ready, state_step_spec(RenderState::Ready, resources_ready)) == RenderState::Ready
        }),
{
}

/// The state of the renderer after one frame of its lifecycle: a polled
/// device error replaces the state; then an initializing renderer runs its
/// startup and is ready, a ready one stays ready, an errored one takes the
/// state its handler's policy gives (staying errored when no policy is
/// given), and a reinitializing one initializes once its recreated
/// resources are there.
pub open spec fn frame_state<C>(state: RenderState, polled: Option<RenderError>, resources_ready: bool, policy: Option<RenderErrorPolicy<C>>) -> RenderState {
    let s = match polled {
        Some(e) => RenderState::Errored(e),
        None => state,
    };
    let step = state_step_spec(s, resources_ready);
    match step {
        StateStep::HandleError => match policy {
            Some(p) => policy_state_spec(s, p),
            None => s,
        },
        _ => state_after_step_spec(s, step),
    }
}

/// The first half of a frame of the renderer's lifecycle: the polled
/// device error, if any, replaces the state, and the frame's step is
/// decided. The caller performs the step (runs the startup schedule, asks
/// the error handler, or installs the recreated resources) and hands the
/// outcome to `finish_frame_state`.
pub fn begin_frame_state(state: RenderState, polled: Option<RenderError>, resources_ready: bool) -> (r: (RenderState, StateStep))
    ensures
        match polled {
            Some(e) => r.0 matches RenderState::Errored(x) && x.ty == e.ty && x.description@ == e.description@,
            None => r.0 == state,
        },
        r.1 == state_step_spec(r.0, resources_ready),
{
    let s = after_poll(state, polled);
    let step = state_step(&s, resources_ready);
    (s, step)
}

/// The second half of a frame: the state after the step, given the policy
/// the error handler answered when it was asked; with the creation
/// settings to recreate the renderer from when the policy recovers.
pub fn finish_frame_state<C>(state: RenderState, step: StateStep, policy: Option<RenderErrorPolicy<C>>) -> (r: (RenderState, Option<C>))
    ensures
        step == StateStep::HandleError ==> match policy {
            Some(p) => r.0 == policy_state_spec(state, p) && r.1 == match p {
                RenderErrorPolicy::Recover(c) => Some(c),
                _ => None,
            },
            None => r.0 == state && r.1 is None,
        },
        step != StateStep::HandleError ==> r.0 == state_after_step_spec(state, step) && r.1 is None,
{
    match step {
        StateStep::HandleError => match policy {
            Some(p) => apply_policy(state, p),
            None => (state, None),
        },
        _ => (state_after_step(state, step), None),
    }
}

/// A whole frame, from the poll to the policy, gives `frame_state`: an
/// initializing renderer becomes ready, a ready one stays ready, an errored
/// one asks its handler (ignore: ready; stop: errored; recover:
/// reinitializing), a reinitializing one initializes once its resources are
/// there; a polled error is what the handler is asked about.
pub proof fn lemma_frame_lifecycle<C>(state: RenderState, polled: Option<RenderError>, resources_ready: bool, policy: Option<RenderErrorPolicy<C>>)
    ensures
        polled is None && state == RenderState::Initializing ==> frame_state(state, polled, resources_ready, policy) == RenderState::Ready,
        polled is None && state == RenderState::Ready ==> frame_state(state, polled, resources_ready, policy) == RenderState::Ready,
        polled is None && state == RenderState::Reinitializing ==> frame_state(state, polled, resources_ready, policy)
            == if resources_ready { RenderState::Initializing } else { RenderState::Reinitializing },
        polled matches Some(e) ==> frame_state(state, polled, resources_ready, policy) == match policy {
            Some(RenderErrorPolicy::Ignore) => RenderState::Ready,
            Some(RenderErrorPolicy::Recover(_)) => RenderState::Reinitializing,
            _ => RenderState::Errored(e),
        },
{
}

/// The name of an error type.
pub open spec fn error_type_name(ty: ErrorType) -> Seq<char> {
    match ty {
        ErrorType::Internal => "Internal"@,
        ErrorType::OutOfMemory => "OutOfMemory"@,
        ErrorType::Validation => "Validation"@,
        ErrorType::DeviceLost => "DeviceLost"@,
    }
}

/// The message of the default error handler, which quits the application.
pub fn quit_message(ty: ErrorType) -> (s: String)
    ensures
        s@ == "Quitting the application due to "@ + error_type_name(ty) + " RenderError"@,
{
    let mut s = String::from_str("Quitting the application due to ");
    match ty {
        ErrorType::Internal => s.append("Internal"),
        ErrorType::OutOfMemory => s.append("OutOfMemory"),
        ErrorType::Validation => s.append("Validation"),
        ErrorType::DeviceLost => s.append("DeviceLost"),
    }
    s.append(" RenderError");
    s
}

} // verus!
