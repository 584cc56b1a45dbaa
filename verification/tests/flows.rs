use npc_backend::gateway::{check_gateway_status, relayed_vms, vms_url, GatewayError, VmwareVmList};
use npc_backend::health::{controller_status, health_response, status_response, ControllerIdentity};
use npc_backend::login::{controller_username, login_start, login_step, LoginAction, LoginEvent, LoginStep};
use npc_backend::provisioning::{
    agent_password, agent_room_name, agent_username, room_alias, setup_agent_accounts,
};
use npc_backend::scaling::{
    check_replica_request, membership_change, scale_status, AgentScaleStatus, MembershipChange,
    ScaleError,
};
use npc_backend::text::signed_decimal;

#[test]
fn decimal_rendering_matches_format() {
    for i in [0i64, 7, 10, 42, 1000, -1, -250, i64::MAX, i64::MIN] {
        assert_eq!(signed_decimal(i), format!("{}", i));
    }
}

#[test]
fn login_succeeds_at_first_attempt() {
    assert_eq!(login_start(), (LoginStep::FirstLogin, LoginAction::Login));
    assert_eq!(
        login_step(LoginStep::FirstLogin, LoginEvent::LoginSucceeded),
        (LoginStep::Ready, LoginAction::Done)
    );
    assert_eq!(controller_username(), "controller");
}

#[test]
fn login_registers_after_failed_attempt() {
    assert_eq!(
        login_step(LoginStep::FirstLogin, LoginEvent::LoginFailed),
        (LoginStep::Registering, LoginAction::RegisterAdmin)
    );
    assert_eq!(
        login_step(LoginStep::Registering, LoginEvent::AccountRegistered),
        (LoginStep::SecondLogin, LoginAction::Login)
    );
    assert_eq!(
        login_step(LoginStep::SecondLogin, LoginEvent::LoginSucceeded),
        (LoginStep::Ready, LoginAction::Done)
    );
}

#[test]
fn login_gives_up_on_second_failure() {
    assert_eq!(
        login_step(LoginStep::Registering, LoginEvent::RegistrationFailed),
        (LoginStep::Failed, LoginAction::Abort)
    );
    assert_eq!(
        login_step(LoginStep::SecondLogin, LoginEvent::LoginFailed),
        (LoginStep::Failed, LoginAction::Abort)
    );
}

#[test]
fn room_and_agent_names() {
    assert_eq!(room_alias("matrix.example.org"), "#agent_room:matrix.example.org");
    assert_eq!(agent_room_name(), "agent_room");
    assert_eq!(agent_username(0), "agent_0");
    assert_eq!(agent_username(12), "agent_12");
    assert_eq!(agent_password("secret", 3), "secret_3");
}

#[test]
fn setup_provisions_agent_zero() {
    let accounts = setup_agent_accounts("pw");
    assert_eq!(accounts.len(), 1);
    assert_eq!(accounts[0].username, "agent_0");
    assert_eq!(accounts[0].password, "pw_0");
}

#[test]
fn replica_requests_outside_one_to_five_are_rejected() {
    assert_eq!(check_replica_request(0), Err(ScaleError::OutOfRange));
    assert_eq!(check_replica_request(6), Err(ScaleError::OutOfRange));
    assert_eq!(check_replica_request(-3), Err(ScaleError::OutOfRange));
    assert_eq!(check_replica_request(1), Ok(1));
    assert_eq!(check_replica_request(5), Ok(5));
}

#[test]
fn scaling_down_kicks_and_up_invites() {
    assert_eq!(membership_change(2, Some(4)), MembershipChange::Kick { from: 2, to: 4 });
    assert_eq!(membership_change(5, Some(3)), MembershipChange::Invite { from: 3, to: 5 });
    assert_eq!(membership_change(3, Some(3)), MembershipChange::Unchanged);
    assert_eq!(membership_change(3, None), MembershipChange::Invite { from: 1, to: 3 });
    assert_eq!(membership_change(1, None), MembershipChange::Unchanged);
}

#[test]
fn scale_status_reports_patched_and_requested() {
    assert_eq!(
        scale_status(4, Some(4)),
        AgentScaleStatus { current_replicas: 4, desired_replicas: 4 }
    );
    assert_eq!(
        scale_status(3, None),
        AgentScaleStatus { current_replicas: 1, desired_replicas: 3 }
    );
}

#[test]
fn gateway_url_and_status() {
    assert_eq!(vms_url("gw:8000"), "http://gw:8000/api/vms");
    assert_eq!(check_gateway_status(200), Ok(()));
    assert_eq!(check_gateway_status(503), Err(GatewayError::BadStatus));
    let list = VmwareVmList {
        vms: vec!["vm-a".to_string(), "vm-b".to_string()],
        count: 2,
        pattern: "vm-*".to_string(),
    };
    assert_eq!(relayed_vms(list), vec!["vm-a".to_string(), "vm-b".to_string()]);
}

#[test]
fn health_answers() {
    let h = health_response("0.1.0");
    assert_eq!(h.status, "healthy");
    assert_eq!(h.version, "0.1.0");
    let s = status_response("0.1.0");
    assert_eq!(s.status, "ok");
    assert_eq!(s.version, "0.1.0");
    let identity = ControllerIdentity {
        version: "0.2.0".to_string(),
        matrix_hostname: "m".to_string(),
        vmware_gateway_hostname: "g".to_string(),
        username: "controller".to_string(),
    };
    let st = controller_status(&identity);
    assert_eq!(st.version, "0.2.0");
    assert_eq!(st.matrix_hostname, "m");
    assert_eq!(st.vmware_gateway_hostname, "g");
    assert_eq!(st.username, "controller");
}

use npc_backend::login::login_expected;
use npc_backend::startup::{
    agent_setup_next, agent_setup_start, namespace_or_default, room_expected, room_start, room_step,
    AgentSetupAction, RoomAction, RoomEvent, RoomStep, MEMBER_SYNC_INTERVAL_SECS,
};

#[test]
fn login_expected_events() {
    assert!(login_expected(LoginStep::FirstLogin, LoginEvent::LoginFailed));
    assert!(login_expected(LoginStep::Registering, LoginEvent::AccountRegistered));
    assert!(!login_expected(LoginStep::Registering, LoginEvent::LoginSucceeded));
    assert!(!login_expected(LoginStep::Ready, LoginEvent::LoginSucceeded));
}

#[test]
fn namespace_defaults_to_npc_dev() {
    assert_eq!(namespace_or_default(None), "npc-dev");
    assert_eq!(namespace_or_default(Some("prod-npc".to_string())), "prod-npc");
    assert_eq!(MEMBER_SYNC_INTERVAL_SECS, 5);
}

#[test]
fn room_is_created_only_when_join_fails() {
    assert_eq!(room_start(), (RoomStep::Joining, RoomAction::Join));
    assert_eq!(room_step(RoomStep::Joining, RoomEvent::Joined), (RoomStep::Ready, RoomAction::Done));
    assert_eq!(room_step(RoomStep::Joining, RoomEvent::JoinFailed), (RoomStep::Creating, RoomAction::Create));
    assert_eq!(room_step(RoomStep::Creating, RoomEvent::Created), (RoomStep::Ready, RoomAction::Done));
    assert_eq!(room_step(RoomStep::Creating, RoomEvent::CreateFailed), (RoomStep::Failed, RoomAction::Abort));
    assert!(room_expected(RoomStep::Joining, RoomEvent::JoinFailed));
    assert!(!room_expected(RoomStep::Ready, RoomEvent::Joined));
}

#[test]
fn agent_setup_goes_on_after_failures() {
    let a = agent_setup_start();
    assert_eq!(a, AgentSetupAction::Register(0));
    assert_eq!(agent_setup_next(a, false), AgentSetupAction::Invite(0));
    assert_eq!(agent_setup_next(a, true), AgentSetupAction::Invite(0));
    assert_eq!(agent_setup_next(AgentSetupAction::Invite(0), false), AgentSetupAction::Finish);
}

#[test]
fn agents_are_not_admins_but_the_controller_is() {
    let accounts = setup_agent_accounts("pw");
    assert!(accounts.iter().all(|a| !a.admin));
    assert!(npc_backend::login::CONTROLLER_ACCOUNT_ADMIN);
}
