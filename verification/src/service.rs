//! The slideshow as a service of the operating system: what it answers to
//! the controls that the system sends, and the status it reports.

use vstd::prelude::*;

verus! {

/// The name under which the service is registered.
pub const SERVICE_NAME: &'static str = "RustSlideshow";

/// A control that the system sends to a service.
#[derive(Debug, Clone, Copy, PartialEq, Eq, Structural)]
pub enum ServiceControl {
    /// The system asks for the status.
    Interrogate,
    /// The system asks the service to stop.
    Stop,
    /// Any other control.
    Other,
}

/// What a service answers to a control.
#[derive(Debug, Clone, Copy, PartialEq, Eq, Structural)]
pub enum ControlAnswer {
    /// The control was handled.
    NoError,
    /// The service does not handle this control.
    NotImplemented,
}

/// Whether a service runs.
#[derive(Debug, Clone, Copy, PartialEq, Eq, Structural)]
pub enum ServiceState {
    Running,
    Stopped,
}

/// What a service reports to the system: whether it runs, whether it
/// takes a request to stop, and the code it ends with (0: no error).
#[derive(Debug, Clone, Copy, PartialEq, Eq, Structural)]
pub struct ServiceStatus {
    pub state: ServiceState,
    pub accepts_stop: bool,
    pub exit_code: u32,
}

/// What became of a service that was sent controls.
#[derive(Debug)]
pub struct ServiceRun {
    /// The answers to the controls that were handled, in their order.
    pub answers: Vec<ControlAnswer>,
    /// Every status that the service reported, in the order of the
    /// reports.
    pub reports: Vec<ServiceStatus>,
}

/// The status of a service that runs: it takes a request to stop.
pub open spec fn running_status() -> ServiceStatus {
    ServiceStatus { state: ServiceState::Running, accepts_stop: true, exit_code: 0 }
}

/// The status of a service that has stopped: it takes no control any more.
pub open spec fn stopped_status() -> ServiceStatus {
    ServiceStatus { state: ServiceState::Stopped, accepts_stop: false, exit_code: 0 }
}

/// The answer to a control: a question for the status and a request to stop
/// are handled, nothing else is.
pub open spec fn answer_to(control: ServiceControl) -> ControlAnswer {
    match control {
        ServiceControl::Interrogate => ControlAnswer::NoError,
        ServiceControl::Stop => ControlAnswer::NoError,
        ServiceControl::Other => ControlAnswer::NotImplemented,
    }
}

/// The controls that a service handles of those it is sent: all up to the
/// first request to stop, and that request.
pub open spec fn handled(controls: Seq<ServiceControl>) -> Seq<ServiceControl> {
    match controls.index_of_first(ServiceControl::Stop) {
        Some(stop) => controls.take(stop + 1),
        None => controls,
    }
}

/// The reports that a service makes when it is sent `controls`: first that
/// it runs, and, once a control asked it to stop, that it has stopped.
/// There is no other report.
pub open spec fn reports_after(controls: Seq<ServiceControl>) -> Seq<ServiceStatus> {
    if controls.contains(ServiceControl::Stop) {
        seq![running_status(), stopped_status()]
    } else {
        seq![running_status()]
    }
}

/// The answer to a control: see [`answer_to`].
pub fn answer(control: ServiceControl) -> (given: ControlAnswer)
    ensures
        given == answer_to(control),
{
    match control {
        ServiceControl::Interrogate => ControlAnswer::NoError,
        ServiceControl::Stop => ControlAnswer::NoError,
        ServiceControl::Other => ControlAnswer::NotImplemented,
    }
}

/// Runs the service on the controls that the system sends: it reports that
/// it runs, answers each control until one asks it to stop, and then
/// reports that it has stopped. Without a request to stop it goes on
/// running.
pub fn run(controls: &Vec<ServiceControl>) -> (outcome: ServiceRun)
    ensures
        outcome.answers@ == handled(controls@).map_values(|control| answer_to(control)),
        outcome.reports@ == reports_after(controls@),
{
    let mut answers: Vec<ControlAnswer> = Vec::new();
    let mut reports: Vec<ServiceStatus> = Vec::new();
    reports.push(ServiceStatus { state: ServiceState::Running, accepts_stop: true, exit_code: 0 });
    assert(reports@ =~= seq![running_status()]);
    let mut at: usize = 0;
    proof {
        controls@.index_of_first_ensures(ServiceControl::Stop);
    }
    while at < controls.len()
        invariant
            at <= controls@.len(),
            answers@ == controls@.take(at as int).map_values(|control| answer_to(control)),
            reports@ == seq![running_status()],
            forall|i: int| 0 <= i < at ==> controls@[i] != ServiceControl::Stop,
        decreases controls@.len() - at,
    {
        let control = controls[at];
        answers.push(answer(control));
        assert(controls@.take(at as int + 1) =~= controls@.take(at as int).push(control));
        assert(answers@ =~= controls@.take(at as int + 1).map_values(|control| answer_to(control)));
        if control == ServiceControl::Stop {
            proof {
                controls@.index_of_first_ensures(ServiceControl::Stop);
                assert(controls@.contains(ServiceControl::Stop));
                assert(controls@.index_of_first(ServiceControl::Stop) == Some(at as int));
            }
            reports.push(
                ServiceStatus { state: ServiceState::Stopped, accepts_stop: false, exit_code: 0 },
            );
            assert(reports@ =~= seq![running_status(), stopped_status()]);
            return ServiceRun { answers, reports };
        }
        at += 1;
    }
    proof {
        controls@.index_of_first_ensures(ServiceControl::Stop);
        assert(!controls@.contains(ServiceControl::Stop));
        assert(controls@.take(at as int) =~= controls@);
    }
    ServiceRun { answers, reports }
}

} // verus!
