use sqlite::extract;
use sqlite::fetch::{
    first_action, FetchAction, FetchError, FetchEvent, SOURCE_URL, TARGET_DIRECTORY, TARGET_FILE,
};

fn walk(events: &[FetchEvent]) -> FetchAction {
    let mut action = first_action();
    for event in events {
        action = extract(action, *event);
    }
    action
}

#[test]
fn fetch_places_are_fixed() {
    assert_eq!(
        SOURCE_URL,
        "https://raw.githubusercontent.com/nogibjj/Xianjing_Huang_Mini_Proj_test/refs/heads/main/customer_new.csv"
    );
    assert_eq!(TARGET_DIRECTORY, "data");
    assert_eq!(TARGET_FILE, "data/customer_new.csv");
    assert!(TARGET_FILE.starts_with(TARGET_DIRECTORY));
}

#[test]
fn fetch_begins_by_looking_for_the_directory() {
    assert_eq!(first_action(), FetchAction::ProbeDirectory);
}

#[test]
fn fetch_with_the_directory_there_goes_straight_to_the_request() {
    assert_eq!(walk(&[FetchEvent::Found]), FetchAction::Request);
}

#[test]
fn fetch_makes_a_missing_directory_first() {
    assert_eq!(walk(&[FetchEvent::Missing]), FetchAction::CreateDirectory);
    assert_eq!(walk(&[FetchEvent::Missing, FetchEvent::Done]), FetchAction::Request);
}

#[test]
fn fetch_walks_to_the_report() {
    let events = [
        FetchEvent::Missing,
        FetchEvent::Done,
        FetchEvent::Status(200),
        FetchEvent::Done,
        FetchEvent::Done,
        FetchEvent::Done,
    ];
    assert_eq!(walk(&events[..3]), FetchAction::CreateFile);
    assert_eq!(walk(&events[..4]), FetchAction::ReadBody);
    assert_eq!(walk(&events[..5]), FetchAction::WriteBody);
    assert_eq!(walk(&events), FetchAction::Report);
}

#[test]
fn fetch_takes_every_status_of_success_and_no_other() {
    for status in [200u16, 201, 204, 299] {
        assert_eq!(extract(FetchAction::Request, FetchEvent::Status(status)), FetchAction::CreateFile);
    }
    for status in [0u16, 100, 199, 300, 301, 404, 500, 65535] {
        assert_eq!(
            extract(FetchAction::Request, FetchEvent::Status(status)),
            FetchAction::Fail(FetchError::Status(status))
        );
    }
}

#[test]
fn fetch_fails_on_the_disk() {
    assert_eq!(walk(&[FetchEvent::Missing, FetchEvent::IoFailed]), FetchAction::Fail(FetchError::Io));
    assert_eq!(
        walk(&[FetchEvent::Found, FetchEvent::Status(200), FetchEvent::IoFailed]),
        FetchAction::Fail(FetchError::Io)
    );
    assert_eq!(
        extract(FetchAction::WriteBody, FetchEvent::IoFailed),
        FetchAction::Fail(FetchError::Io)
    );
}

#[test]
fn fetch_fails_on_the_network() {
    assert_eq!(
        walk(&[FetchEvent::Found, FetchEvent::NetworkFailed]),
        FetchAction::Fail(FetchError::Network)
    );
    assert_eq!(
        extract(FetchAction::ReadBody, FetchEvent::NetworkFailed),
        FetchAction::Fail(FetchError::Network)
    );
}

#[test]
fn fetch_stays_failed() {
    let failed = FetchAction::Fail(FetchError::Status(404));
    for event in [
        FetchEvent::Found,
        FetchEvent::Missing,
        FetchEvent::Done,
        FetchEvent::Status(200),
        FetchEvent::IoFailed,
        FetchEvent::NetworkFailed,
    ] {
        assert_eq!(extract(failed, event), failed);
    }
}

#[test]
fn fetch_refuses_events_out_of_turn() {
    let out_of_turn = FetchAction::Fail(FetchError::OutOfTurn);
    assert_eq!(extract(FetchAction::ProbeDirectory, FetchEvent::Done), out_of_turn);
    assert_eq!(extract(FetchAction::ProbeDirectory, FetchEvent::Status(200)), out_of_turn);
    assert_eq!(extract(FetchAction::CreateDirectory, FetchEvent::Found), out_of_turn);
    assert_eq!(extract(FetchAction::Request, FetchEvent::Done), out_of_turn);
    assert_eq!(extract(FetchAction::Request, FetchEvent::IoFailed), out_of_turn);
    assert_eq!(extract(FetchAction::CreateFile, FetchEvent::NetworkFailed), out_of_turn);
    assert_eq!(extract(FetchAction::ReadBody, FetchEvent::IoFailed), out_of_turn);
    assert_eq!(extract(FetchAction::WriteBody, FetchEvent::Status(200)), out_of_turn);
    assert_eq!(extract(FetchAction::Report, FetchEvent::Done), out_of_turn);
}
