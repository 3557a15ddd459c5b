use openstack_tui::action::{Action, Mode};
use openstack_tui::navigation_key::{KeyCode, KeyEvent, KeyModifiers};
use openstack_tui::ssh_user_popup::{
    runtime_ssh_user_from, ssh_destination, ssh_user_env_keys, SshUserPopup,
};

fn key(code: KeyCode) -> KeyEvent {
    KeyEvent::new(code, KeyModifiers::empty())
}

#[test]
fn ssh_destination_uses_user_when_present() {
    assert_eq!(ssh_destination("ubuntu", "10.0.0.5"), "ubuntu@10.0.0.5");
}

#[test]
fn ssh_destination_trims_user() {
    assert_eq!(ssh_destination(" ubuntu ", "10.0.0.5"), "ubuntu@10.0.0.5");
}

#[test]
fn ssh_destination_uses_host_without_user() {
    assert_eq!(ssh_destination("", "10.0.0.5"), "10.0.0.5");
}

#[test]
fn ssh_destination_blank_user_is_no_user() {
    assert_eq!(ssh_destination(" \t\n", "host"), "host");
    assert_eq!(ssh_destination("\u{3000}root\u{a0}", "host"), "root@host");
}

#[test]
fn prompt_sets_runtime_user_and_host() {
    let runtime_user = runtime_ssh_user_from(&vec![None, Some(String::from("alice")), None]);
    let mut popup = SshUserPopup::new();
    popup
        .update(
            Action::PromptSshUser {
                host: String::from("10.0.0.5"),
            },
            Mode::ComputeServers,
            runtime_user.clone(),
        )
        .unwrap();

    assert_eq!(popup.host.as_deref(), Some("10.0.0.5"));
    assert_eq!(popup.input, runtime_user);
}

#[test]
fn other_messages_leave_the_prompt_alone() {
    let mut popup = SshUserPopup::new();
    popup.host = Some(String::from("h"));
    popup.input = String::from("u");
    let r = popup.update(Action::Tick, Mode::ComputeServers, String::from("x")).unwrap();
    assert_eq!(r, None);
    assert_eq!(popup.host.as_deref(), Some("h"));
    assert_eq!(popup.input, "u");
}

#[test]
fn enter_returns_ssh_command_with_selected_user() {
    let mut popup = SshUserPopup::new();
    popup.host = Some(String::from("10.0.0.5"));
    popup.input = String::from("ubuntu");

    let action = popup.handle_key_events(key(KeyCode::Enter)).unwrap();

    assert_eq!(
        action,
        Some(Action::RunTerminalCommand {
            program: String::from("ssh"),
            args: vec![String::from("ubuntu@10.0.0.5")]
        })
    );
    assert_eq!(popup.host, None);
    assert_eq!(popup.input, "");
}

#[test]
fn esc_resets_prompt() {
    let mut popup = SshUserPopup::new();
    popup.host = Some(String::from("10.0.0.5"));
    popup.input = String::from("ubuntu");

    let action = popup.handle_key_events(key(KeyCode::Esc)).unwrap();

    assert_eq!(action, None);
    assert_eq!(popup.host, None);
    assert_eq!(popup.input, "");
}

#[test]
fn enter_without_host_resets_and_answers_nothing() {
    let mut popup = SshUserPopup::default();
    popup.input = String::from("ubuntu");
    let action = popup.handle_key_events(key(KeyCode::Enter)).unwrap();
    assert_eq!(action, None);
    assert_eq!(popup.host, None);
    assert_eq!(popup.input, "");
}

#[test]
fn typing_and_erasing() {
    let mut popup = SshUserPopup::new();
    popup.host = Some(String::from("h"));
    for c in ['r', 'o', 'o', 't', 'x'] {
        assert_eq!(popup.handle_key_events(key(KeyCode::Char(c))).unwrap(), None);
    }
    assert_eq!(popup.input, "rootx");
    popup.handle_key_events(key(KeyCode::Backspace)).unwrap();
    assert_eq!(popup.input, "root");
    popup.handle_key_events(key(KeyCode::Tab)).unwrap();
    assert_eq!(popup.input, "root");
    assert_eq!(popup.host.as_deref(), Some("h"));
    popup.handle_key_events(key(KeyCode::Delete)).unwrap();
    assert_eq!(popup.input, "roo");
    let mut empty = SshUserPopup::new();
    empty.handle_key_events(key(KeyCode::Backspace)).unwrap();
    assert_eq!(empty.input, "");
}

#[test]
fn enter_with_blank_user_connects_to_host() {
    let mut popup = SshUserPopup::new();
    popup.host = Some(String::from("10.0.0.5"));
    popup.input = String::from("  ");
    let action = popup.handle_key_events(key(KeyCode::Enter)).unwrap();
    assert_eq!(
        action,
        Some(Action::RunTerminalCommand {
            program: String::from("ssh"),
            args: vec![String::from("10.0.0.5")]
        })
    );
}

#[test]
fn runtime_user_takes_first_non_blank_value() {
    assert_eq!(
        runtime_ssh_user_from(&vec![Some(String::from("  ")), None, Some(String::from(" bob "))]),
        " bob "
    );
    assert_eq!(runtime_ssh_user_from(&vec![Some(String::from("amy")), Some(String::from("bob"))]), "amy");
    assert_eq!(runtime_ssh_user_from(&vec![None, Some(String::new()), None]), "");
    assert_eq!(runtime_ssh_user_from(&vec![]), "");
}

#[test]
fn env_keys_in_order() {
    assert_eq!(ssh_user_env_keys(), vec!["USER", "LOGNAME", "USERNAME"]);
}

#[test]
fn host_line_shows_host() {
    let mut popup = SshUserPopup::new();
    assert_eq!(popup.host_line(), "Host: ");
    popup.host = Some(String::from("10.0.0.5"));
    assert_eq!(popup.host_line(), "Host: 10.0.0.5");
}
