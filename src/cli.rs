//! The arguments for `ssh` that run a lifecycle action of a `docker compose`
//! project on the host of a profile.

use vstd::prelude::*;
use crate::model::{Action, CommandRequest, CommandRequestView, Modifier, ModifierView, Scope};
use crate::state::string_views;

verus! {

/// What follows `docker compose ` on the remote side: the action, and the
/// service or image scope it is narrowed to. A modifier that does not belong
/// to the action is left out.
pub open spec fn compose_tail(action: Action, m: Option<ModifierView>) -> Seq<char> {
    match (action, m) {
        (Action::Up, Some(ModifierView::Target(t))) => "up -d --build "@ + t,
        (Action::Up, _) => "up -d"@,
        (Action::Down, Some(ModifierView::Rmi(Scope::Local))) => "down --rmi local"@,
        (Action::Down, Some(ModifierView::Rmi(Scope::All))) => "down --rmi all"@,
        (Action::Down, _) => "down"@,
        (Action::Start, Some(ModifierView::Target(t))) => "start "@ + t,
        (Action::Start, _) => "start"@,
        (Action::Stop, Some(ModifierView::Target(t))) => "stop "@ + t,
        (Action::Stop, _) => "stop"@,
    }
}

/// The `ssh` arguments for a request: a forced terminal, the login, and the
/// remote command that changes into the project's directory and runs the action.
pub open spec fn spec_ssh_args(r: CommandRequestView) -> Seq<Seq<char>> {
    seq![
        "-tt"@,
        r.profile.username + "@"@ + r.profile.hostname,
        "cd "@ + r.profile.path + " && docker compose "@ + compose_tail(r.action, r.modifier),
    ]
}

fn compose_tail_text(req: &CommandRequest) -> (r: String)
    ensures
        r@ == compose_tail(req.action, req@.modifier),
{
    match (req.action, &req.modifier) {
        (Action::Up, Some(Modifier::Target(t))) => "up -d --build ".to_owned().concat(t.as_str()),
        (Action::Up, _) => "up -d".to_owned(),
        (Action::Down, Some(Modifier::Rmi(Scope::Local))) => "down --rmi local".to_owned(),
        (Action::Down, Some(Modifier::Rmi(Scope::All))) => "down --rmi all".to_owned(),
        (Action::Down, _) => "down".to_owned(),
        (Action::Start, Some(Modifier::Target(t))) => "start ".to_owned().concat(t.as_str()),
        (Action::Start, _) => "start".to_owned(),
        (Action::Stop, Some(Modifier::Target(t))) => "stop ".to_owned().concat(t.as_str()),
        (Action::Stop, _) => "stop".to_owned(),
    }
}

/// The arguments to hand to `ssh` for a request.
pub fn ssh_args(req: &CommandRequest) -> (r: Vec<String>)
    ensures
        string_views(r@) == spec_ssh_args(req@),
{
    let login = req.profile.username.clone().concat("@").concat(req.profile.hostname.as_str());
    let tail = compose_tail_text(req);
    let remote = "cd ".to_owned().concat(req.profile.path.as_str()).concat(
        " && docker compose ",
    ).concat(tail.as_str());
    let r = vec!["-tt".to_owned(), login, remote];
    assert(string_views(r@) =~= spec_ssh_args(req@));
    r
}

} // verus!
