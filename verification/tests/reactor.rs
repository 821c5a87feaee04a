use zloader::event::EbpfEvent;
use zloader::error::{Error, Transient};
use zloader::protocol::Failure;
use zloader::reactor::{resume_failed, resume_later, Action, Reactor};

fn reactor() -> Reactor<&'static str> {
    Reactor::new(300_000, 3, vec![10123])
}

#[test]
fn start_and_fork_are_only_logged() {
    let mut reactor = reactor();
    assert!(matches!(reactor.handle(EbpfEvent::ZygoteStarted(100), 0), Action::Log));
    assert!(matches!(reactor.handle(EbpfEvent::ZygoteForked(200), 0), Action::Log));
}

#[test]
fn third_crash_within_the_window_ends_the_daemon() {
    let mut reactor = reactor();
    assert!(matches!(reactor.handle(EbpfEvent::ZygoteCrashed(100), 1_000), Action::Log));
    assert!(matches!(reactor.handle(EbpfEvent::ZygoteCrashed(101), 2_000), Action::Log));
    assert!(matches!(reactor.handle(EbpfEvent::ZygoteCrashed(102), 3_000), Action::Exit));
}

#[test]
fn crashes_far_apart_do_not_end_the_daemon() {
    let mut reactor = reactor();
    for round in 0..10u64 {
        let action = reactor.handle(EbpfEvent::ZygoteCrashed(100), round * 200_000);
        assert!(matches!(action, Action::Log));
    }
}

#[test]
fn attachment_is_kept_until_the_injection_is_demanded() {
    let mut reactor = reactor();
    let action = reactor.handle(EbpfEvent::RequireUprobeAttach(200), 0);
    assert!(matches!(action, Action::Attach { pid: 200 }));
    assert_eq!(resume_later(&action), Some(200));
    assert_eq!(reactor.attached(200, "link-200"), None);
    assert!(reactor.is_attached(200));
    for event in [
        EbpfEvent::ZygoteStarted(200),
        EbpfEvent::ZygoteForked(200),
        EbpfEvent::ZygoteCrashed(200),
        EbpfEvent::RequireUprobeAttach(201),
        EbpfEvent::RequireInject(201, 5),
        EbpfEvent::RequireUmount(200, 10123),
    ] {
        reactor.handle(event, 0);
        assert!(reactor.is_attached(200));
    }
    let action = reactor.handle(EbpfEvent::RequireInject(200, 0x7ff1_2345_6789), 0);
    assert!(matches!(
        action,
        Action::Inject { pid: 200, return_addr: 0x7ff1_2345_6789, detach: Some("link-200") }
    ));
    assert_eq!(resume_later(&action), None);
    assert!(!reactor.is_attached(200));
}

#[test]
fn second_demand_finds_nothing_to_release() {
    let mut reactor = reactor();
    reactor.attached(200, "link");
    reactor.handle(EbpfEvent::RequireInject(200, 1), 0);
    assert!(matches!(
        reactor.handle(EbpfEvent::RequireInject(200, 2), 0),
        Action::Inject { pid: 200, return_addr: 2, detach: None }
    ));
}

#[test]
fn new_handle_replaces_the_old_one() {
    let mut reactor = reactor();
    assert_eq!(reactor.attached(200, "first"), None);
    assert_eq!(reactor.attached(200, "second"), Some("first"));
    assert!(matches!(
        reactor.handle(EbpfEvent::RequireInject(200, 1), 0),
        Action::Inject { detach: Some("second"), .. }
    ));
}

#[test]
fn mounts_are_scrubbed_for_denied_users_only() {
    let mut reactor = reactor();
    let action = reactor.handle(EbpfEvent::RequireUmount(300, 10123), 0);
    assert!(matches!(action, Action::Umount { pid: 300, uid: 10123 }));
    assert_eq!(resume_later(&action), None);
    let action = reactor.handle(EbpfEvent::RequireUmount(301, 10124), 0);
    assert!(matches!(action, Action::Resume { pid: 301 }));
    assert_eq!(resume_later(&action), Some(301));
}

#[test]
fn only_the_reactor_s_own_children_are_resumed_by_it() {
    assert_eq!(resume_later(&Action::<u8>::Log), None);
    assert_eq!(resume_later(&Action::<u8>::Exit), None);
}

#[test]
fn signal_for_a_child_that_is_gone_is_dropped() {
    assert!(resume_failed(Failure::NoSuchProcess).is_none());
    assert!(matches!(
        resume_failed(Failure::Interrupted),
        Some(Error::Transient(Transient::Interrupted))
    ));
    assert!(matches!(resume_failed(Failure::Other), Some(Error::RemotePtraceFailed)));
    assert!(matches!(resume_failed(Failure::InvalidArgument), Some(Error::RemotePtraceFailed)));
}
