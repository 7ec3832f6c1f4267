use lightway::action::{Action, Event, HostAction};
use lightway::agenda::Agenda;
use lightway::error::ConnectionError;

fn event(event: Event) -> HostAction {
    Action::Event(event)
}

fn is_shutdown(action: Option<HostAction>) -> bool {
    matches!(action, Some(Action::Shutdown))
}

#[test]
fn later_requests_come_first() {
    let asked = vec![Action::UpdateTickInterval, Action::Shutdown];
    let mut agenda = Agenda::new(asked, Ok(5));
    assert!(matches!(agenda.next_action(), Some(Action::UpdateTickInterval)));
    let more = vec![event(Event::KeepaliveReply), event(Event::FirstPacketReceived)];
    agenda.absorb(more, Ok(()));
    assert!(matches!(
        agenda.next_action(),
        Some(Action::Event(Event::KeepaliveReply))
    ));
    agenda.absorb(vec![Action::FreeClientIp], Ok(()));
    assert!(matches!(agenda.next_action(), Some(Action::FreeClientIp)));
    assert!(matches!(
        agenda.next_action(),
        Some(Action::Event(Event::FirstPacketReceived))
    ));
    assert!(is_shutdown(agenda.next_action()));
    assert!(agenda.next_action().is_none());
    assert_eq!(agenda.finish().unwrap(), 5);
}

#[test]
fn first_failure_is_reported() {
    let asked = vec![Action::UpdateTickInterval, Action::FreeClientIp];
    let mut agenda = Agenda::new(asked, Ok(()));
    assert!(matches!(agenda.next_action(), Some(Action::UpdateTickInterval)));
    // what failed still gets what it asked for
    agenda.absorb(vec![Action::Shutdown], Err(ConnectionError::TimedOut));
    assert!(is_shutdown(agenda.next_action()));
    agenda.absorb(Vec::new(), Err(ConnectionError::InvalidState));
    assert!(agenda.next_action().is_none());
    assert!(matches!(agenda.finish(), Err(ConnectionError::TimedOut)));
}

#[test]
fn failed_steps_get_what_they_asked_for() {
    let mut agenda: Agenda<()> =
        Agenda::new(vec![Action::Shutdown], Err(ConnectionError::AccessDenied));
    assert!(is_shutdown(agenda.next_action()));
    agenda.absorb(Vec::new(), Ok(()));
    assert!(agenda.next_action().is_none());
    assert!(matches!(agenda.finish(), Err(ConnectionError::AccessDenied)));
}
