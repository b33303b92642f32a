use pcode_cli::cli::ssh_args;
use pcode_cli::model::{Action, CommandRequest, Modifier, Profile, Scope};

fn req(action: Action, modifier: Option<Modifier>) -> CommandRequest {
    CommandRequest {
        action,
        profile: Profile {
            name: "p1".to_string(),
            username: "u".to_string(),
            hostname: "h".to_string(),
            path: "/srv".to_string(),
        },
        modifier,
    }
}

#[test]
fn up_with_and_without_target() {
    assert_eq!(
        ssh_args(&req(Action::Up, None)),
        vec!["-tt", "u@h", "cd /srv && docker compose up -d"]
    );
    assert_eq!(
        ssh_args(&req(Action::Up, Some(Modifier::Target("web".to_string())))),
        vec!["-tt", "u@h", "cd /srv && docker compose up -d --build web"]
    );
}

#[test]
fn down_with_each_scope() {
    assert_eq!(ssh_args(&req(Action::Down, None))[2], "cd /srv && docker compose down");
    assert_eq!(
        ssh_args(&req(Action::Down, Some(Modifier::Rmi(Scope::Local))))[2],
        "cd /srv && docker compose down --rmi local"
    );
    assert_eq!(
        ssh_args(&req(Action::Down, Some(Modifier::Rmi(Scope::All))))[2],
        "cd /srv && docker compose down --rmi all"
    );
}

#[test]
fn start_and_stop_with_target() {
    assert_eq!(
        ssh_args(&req(Action::Start, Some(Modifier::Target("db".to_string()))))[2],
        "cd /srv && docker compose start db"
    );
    assert_eq!(ssh_args(&req(Action::Stop, None))[2], "cd /srv && docker compose stop");
    assert_eq!(
        ssh_args(&req(Action::Stop, Some(Modifier::Target("db".to_string()))))[2],
        "cd /srv && docker compose stop db"
    );
}
