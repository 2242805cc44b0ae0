//! Shutdown observation: the armed termination signals, drained per poll.
//!
//! This file raises real process signals, so it stands alone: the raise
//! must not race another test binary's expectations.

use linuxcnc_hal::error::ResourcesError;
use linuxcnc_hal::hal::Hal;
use linuxcnc_hal::shutdown::{
    any_termination, is_termination_signal, ShutdownWatcher, SIGINT, SIGKILL, SIGTERM,
};
use linuxcnc_hal::{HalComponent, RegisterResources, Resources};

#[derive(Debug)]
struct EmptyResources {}

impl Resources for EmptyResources {
    fn register_resources(_comp: &RegisterResources, _hal: &mut Hal) -> Result<Self, ResourcesError> {
        Ok(Self {})
    }
}

#[test]
fn termination_signal_set() {
    assert!(is_termination_signal(SIGTERM));
    assert!(is_termination_signal(SIGINT));
    assert!(is_termination_signal(SIGKILL));
    assert!(!is_termination_signal(0));
    assert!(!is_termination_signal(1));
    assert!(!is_termination_signal(17));
}

#[test]
fn any_termination_judges_a_drained_set() {
    assert!(!any_termination(&vec![]));
    assert!(!any_termination(&vec![1, 10, 17]));
    assert!(any_termination(&vec![1, SIGTERM]));
    assert!(any_termination(&vec![SIGINT]));
    assert!(any_termination(&vec![17, 10, SIGKILL, 1]));
}

#[test]
fn should_exit_reports_a_delivered_signal_once() {
    let mut hal = Hal::new(4, 2);
    let mut comp: HalComponent<EmptyResources> = HalComponent::new("sig", &mut hal).unwrap();
    let mut watcher = ShutdownWatcher::arm().unwrap();

    // nothing was delivered yet
    assert!(!comp.should_exit());
    assert!(!comp.should_exit());
    assert!(!watcher.should_exit());

    // deliver a terminate signal to this very process; the armed handler
    // catches it
    signal_hook::low_level::raise(signal_hook::consts::SIGTERM).unwrap();

    assert!(comp.should_exit());
    // the delivery was drained by the previous poll
    assert!(!comp.should_exit());

    // an interrupt is caught as well
    signal_hook::low_level::raise(signal_hook::consts::SIGINT).unwrap();
    assert!(comp.should_exit());
    // every armed watcher observed the deliveries independently
    assert!(watcher.should_exit());

    watcher.close();
    comp.close(&mut hal);
}
