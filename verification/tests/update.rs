use app_shell::update::check_update;
use app_shell::update::CheckOutcome;
use app_shell::update::InstallAction;
use app_shell::update::InstallSession;
use app_shell::update::InstallState;

#[test]
fn check_reports_newer_version_identifier() {
    let r = check_update(Ok(CheckOutcome::Newer(String::from("1.2.3"))));
    assert_eq!(r, Ok(Some(String::from("1.2.3"))));
}

#[test]
fn check_up_to_date_is_absent_result_not_error() {
    let r = check_update(Ok(CheckOutcome::UpToDate));
    assert_eq!(r, Ok(None));
}

#[test]
fn check_failure_is_error_string_and_no_version() {
    let r = check_update(Err(String::from("network unreachable")));
    assert_eq!(r, Err(String::from("network unreachable")));
}

#[test]
fn install_refused_when_no_update_available() {
    let mut s = InstallSession::new();
    let a = s.on_check(Ok(CheckOutcome::UpToDate));
    // No install is ordered; the request fails with the fixed error text.
    assert_eq!(a, InstallAction::Reply(Err(String::from("No update available"))));
    assert_eq!(s.state, InstallState::Done);
}

#[test]
fn install_refused_when_check_fails() {
    let mut s = InstallSession::new();
    let a = s.on_check(Err(String::from("check failed")));
    assert_eq!(a, InstallAction::Reply(Err(String::from("check failed"))));
    assert_eq!(s.state, InstallState::Done);
}

#[test]
fn newer_version_orders_exactly_one_install_then_succeeds() {
    let mut s = InstallSession::new();
    let a = s.on_check(Ok(CheckOutcome::Newer(String::from("2.0.0"))));
    assert_eq!(a, InstallAction::RunInstall);
    assert_eq!(s.state, InstallState::Installing);
    let b = s.on_install_result(Ok(()));
    assert_eq!(b, Ok(()));
    assert_eq!(s.state, InstallState::Done);
}

#[test]
fn install_failure_is_returned_verbatim() {
    let mut s = InstallSession::new();
    let a = s.on_check(Ok(CheckOutcome::Newer(String::from("2.0.0"))));
    assert_eq!(a, InstallAction::RunInstall);
    let b = s.on_install_result(Err(String::from("signature mismatch")));
    assert_eq!(b, Err(String::from("signature mismatch")));
    assert_eq!(s.state, InstallState::Done);
}
