//! The screen state machine: what each key does on each screen.

use vstd::prelude::*;
use crate::cursor::SelectedState;
use crate::model::{
    block_of_index, classify, empty_user_profile, is_complete, profile_of, spec_classify, Action,
    Command, CommandRequest, CommandRequestView, CurrentBlock, Effect, EffectView, InputMode, Key,
    Modifier, ModifierView, Notice, ProfileView, Scope, StoreError, UserProfileView,
};
use crate::model::UserProfile;
use crate::state::{
    detail_of, is_list, is_target, origin_row, parent_of, string_views, App, AppView,
};

verus! {

/// Drops the last character of a field being typed into, if there is one.
pub open spec fn erase_last(f: Seq<char>) -> Seq<char> {
    if f.len() > 0 {
        f.drop_last()
    } else {
        f
    }
}

/// Appends `ch` to the editor field on row `i` (profile, username, hostname, path).
pub open spec fn type_into(p: UserProfileView, i: int, ch: char) -> UserProfileView {
    if i == 0 {
        UserProfileView { profile: p.profile.push(ch), ..p }
    } else if i == 1 {
        UserProfileView { username: p.username.push(ch), ..p }
    } else if i == 2 {
        UserProfileView { hostname: p.hostname.push(ch), ..p }
    } else {
        UserProfileView { path: p.path.push(ch), ..p }
    }
}

/// Erases the last character of the editor field on row `i`.
pub open spec fn erase_from(p: UserProfileView, i: int) -> UserProfileView {
    if i == 0 {
        UserProfileView { profile: erase_last(p.profile), ..p }
    } else if i == 1 {
        UserProfileView { username: erase_last(p.username), ..p }
    } else if i == 2 {
        UserProfileView { hostname: erase_last(p.hostname), ..p }
    } else {
        UserProfileView { path: erase_last(p.path), ..p }
    }
}

/// The action a target screen runs.
pub open spec fn action_of(b: CurrentBlock) -> Action {
    match b {
        CurrentBlock::StartTarget => Action::Start,
        CurrentBlock::StopTarget => Action::Stop,
        _ => Action::Up,
    }
}

/// The image scope chosen on row `k` of the `down` screen: none, local, all.
pub open spec fn rmi_of_row(k: int) -> Option<Scope> {
    if k == 1 {
        Some(Scope::Local)
    } else if k == 2 {
        Some(Scope::All)
    } else {
        None
    }
}

/// An empty service name stands for every service.
pub open spec fn target_modifier(t: Seq<char>) -> Option<ModifierView> {
    if t.len() > 0 {
        Some(ModifierView::Target(t))
    } else {
        None
    }
}

pub open spec fn scope_modifier(r: Option<Scope>) -> Option<ModifierView> {
    match r {
        Some(s) => Some(ModifierView::Rmi(s)),
        None => None,
    }
}

/// Cursor movement, shared by every screen in normal mode.
pub open spec fn moved(s: AppView, c: Command) -> AppView {
    match c {
        Command::MoveUp => s.with_cursor(s.cursor.spec_prev()),
        Command::MoveDown => s.with_cursor(s.cursor.spec_next()),
        _ => s,
    }
}

pub open spec fn step_main(s: AppView, c: Command) -> (AppView, EffectView) {
    match c {
        Command::Cancel => (s, EffectView::Exit),
        Command::MoveUp | Command::MoveDown => (moved(s, c), EffectView::Nothing),
        Command::Confirm => match s.cursor.current {
            Some(i) => (s.enter_list(block_of_index(i + 1)), EffectView::ListProfiles),
            None => (s, EffectView::Nothing),
        },
        _ => (s, EffectView::Nothing),
    }
}

pub open spec fn step_list(s: AppView, c: Command) -> (AppView, EffectView) {
    let b = s.block;
    match c {
        Command::Cancel => (
            AppView {
                block: CurrentBlock::Main,
                profile: empty_user_profile(),
                list: Seq::empty(),
                mode: InputMode::Normal,
                cursor: SelectedState { max: 5, current: Some(origin_row(b)) },
                ..s
            },
            EffectView::Nothing,
        ),
        Command::MoveUp | Command::MoveDown => (moved(s, c), EffectView::Nothing),
        Command::Confirm => match s.cursor.current {
            Some(u) => if b is Env && u == 0 {
                (
                    AppView { profile: empty_user_profile(), ..s }.enter_fixed(
                        CurrentBlock::EnvEdit,
                    ),
                    EffectView::Nothing,
                )
            } else {
                (s, EffectView::LoadProfile(s.list[u as int]))
            },
            None => (s, EffectView::Nothing),
        },
        Command::Delete => match s.cursor.current {
            Some(u) => if b is Env && u > 0 {
                (
                    AppView {
                        list: s.list.remove(u as int),
                        cursor: s.cursor.spec_set_max((s.list.len() - 1) as usize),
                        ..s
                    },
                    EffectView::DeleteProfile(s.list[u as int]),
                )
            } else {
                (s, EffectView::Nothing)
            },
            None => (s, EffectView::Nothing),
        },
        _ => (s, EffectView::Nothing),
    }
}

pub open spec fn step_edit(s: AppView, c: Command) -> (AppView, EffectView) {
    match s.mode {
        InputMode::Normal => match c {
            Command::Cancel => (s.enter_list(CurrentBlock::Env), EffectView::ListProfiles),
            Command::MoveUp | Command::MoveDown => (moved(s, c), EffectView::Nothing),
            Command::Confirm => match s.cursor.current {
                Some(i) => if i < 4 {
                    (AppView { mode: InputMode::Insert, ..s }, EffectView::Nothing)
                } else if is_complete(s.profile) {
                    (s, EffectView::SaveProfile(profile_of(s.profile)))
                } else {
                    (s.with_notice(Notice::IncompleteProfile), EffectView::Nothing)
                },
                None => (s, EffectView::Nothing),
            },
            _ => (s, EffectView::Nothing),
        },
        InputMode::Insert => match (c, s.cursor.current) {
            (Command::Confirm, _) | (Command::Cancel, _) => (
                AppView { mode: InputMode::Normal, ..s },
                EffectView::Nothing,
            ),
            (Command::Char(ch), Some(i)) => (
                AppView { profile: type_into(s.profile, i as int, ch), ..s },
                EffectView::Nothing,
            ),
            (Command::Backspace, Some(i)) => (
                AppView { profile: erase_from(s.profile, i as int), ..s },
                EffectView::Nothing,
            ),
            _ => (s, EffectView::Nothing),
        },
    }
}

pub open spec fn step_target(s: AppView, c: Command) -> (AppView, EffectView) {
    match s.mode {
        InputMode::Normal => match c {
            Command::Cancel => (s.enter_list(parent_of(s.block)), EffectView::ListProfiles),
            Command::MoveUp | Command::MoveDown => (moved(s, c), EffectView::Nothing),
            Command::Confirm => match s.cursor.current {
                Some(i) => if i == 0 {
                    (AppView { mode: InputMode::Insert, ..s }, EffectView::Nothing)
                } else {
                    (
                        s,
                        EffectView::Run(
                            CommandRequestView {
                                action: action_of(s.block),
                                profile: profile_of(s.profile),
                                modifier: target_modifier(s.profile.target),
                            },
                        ),
                    )
                },
                None => (s, EffectView::Nothing),
            },
            _ => (s, EffectView::Nothing),
        },
        InputMode::Insert => match c {
            Command::Confirm | Command::Cancel => (
                AppView { mode: InputMode::Normal, ..s },
                EffectView::Nothing,
            ),
            Command::Char(ch) => (
                AppView {
                    profile: UserProfileView { target: s.profile.target.push(ch), ..s.profile },
                    ..s
                },
                EffectView::Nothing,
            ),
            Command::Backspace => (
                AppView {
                    profile: UserProfileView { target: erase_last(s.profile.target), ..s.profile },
                    ..s
                },
                EffectView::Nothing,
            ),
            _ => (s, EffectView::Nothing),
        },
    }
}

pub open spec fn step_rmi(s: AppView, c: Command) -> (AppView, EffectView) {
    match c {
        Command::Cancel => (s.enter_list(CurrentBlock::Down), EffectView::ListProfiles),
        Command::MoveUp | Command::MoveDown => (moved(s, c), EffectView::Nothing),
        Command::Confirm => match s.cursor.current {
            Some(k) => (
                AppView { profile: UserProfileView { rmi: rmi_of_row(k as int), ..s.profile }, ..s },
                EffectView::Run(
                    CommandRequestView {
                        action: Action::Down,
                        profile: profile_of(s.profile),
                        modifier: scope_modifier(rmi_of_row(k as int)),
                    },
                ),
            ),
            None => (s, EffectView::Nothing),
        },
        _ => (s, EffectView::Nothing),
    }
}

/// One step of the session: the new state and what the caller is to do, for
/// command `c` on the current screen. A key clears the previous notice.
pub open spec fn step(s: AppView, c: Command) -> (AppView, EffectView) {
    let q = AppView { notice: None, ..s };
    match s.block {
        CurrentBlock::Main => step_main(q, c),
        CurrentBlock::EnvEdit => step_edit(q, c),
        CurrentBlock::DownRmi => step_rmi(q, c),
        CurrentBlock::UpTarget | CurrentBlock::StartTarget | CurrentBlock::StopTarget => step_target(
            q,
            c,
        ),
        _ => step_list(q, c),
    }
}

fn move_cursor(app: &mut App, cmd: Command)
    requires
        old(app).wf(),
        old(app).input_mode is Normal,
        cmd is MoveUp || cmd is MoveDown,
    ensures
        final(app)@ == moved(old(app)@, cmd),
        final(app).wf(),
{
    if cmd == Command::MoveUp {
        app.selected_state.prev();
    } else {
        app.selected_state.next();
    }
}

/// The main menu: its five rows open the profile editor's list and the lists
/// for `up`, `down`, `start` and `stop`.
pub fn main_menu(app: &mut App, cmd: Command) -> (r: Effect)
    requires
        old(app).wf(),
        old(app).current_block is Main,
    ensures
        final(app).wf(),
        (final(app)@, r@) == step(old(app)@, cmd),
{
    app.notice = None;
    match cmd {
        Command::Cancel => Effect::Exit,
        Command::MoveUp | Command::MoveDown => {
            move_cursor(app, cmd);
            Effect::Nothing
        },
        Command::Confirm => match app.selected_state.selected() {
            Some(i) => {
                let b = CurrentBlock::from_usize(i + 1);
                app.enter_list(b);
                Effect::ListProfiles
            },
            None => Effect::Nothing,
        },
        _ => Effect::Nothing,
    }
}

proof fn lemma_string_views_remove(v: Seq<String>, i: int)
    requires
        0 <= i < v.len(),
    ensures
        string_views(v.remove(i)) == string_views(v).remove(i),
{
    assert(string_views(v.remove(i)) =~= string_views(v).remove(i));
}

/// A list of profiles; on the editor's list, row 0 opens an empty profile.
fn profile_list(app: &mut App, cmd: Command) -> (r: Effect)
    requires
        old(app).wf(),
        is_list(old(app).current_block),
    ensures
        final(app).wf(),
        (final(app)@, r@) == step(old(app)@, cmd),
{
    app.notice = None;
    let b = app.current_block;
    match cmd {
        Command::Cancel => {
            let row: usize = match b {
                CurrentBlock::Up => 1,
                CurrentBlock::Down => 2,
                CurrentBlock::Start => 3,
                CurrentBlock::Stop => 4,
                _ => 0,
            };
            app.current_block = CurrentBlock::Main;
            app.user_profile = UserProfile::new();
            app.list_profile = Vec::new();
            app.input_mode = InputMode::Normal;
            app.selected_state = SelectedState { max: 5, current: Some(row) };
            assert(app@.list =~= Seq::empty());
            Effect::Nothing
        },
        Command::MoveUp | Command::MoveDown => {
            move_cursor(app, cmd);
            Effect::Nothing
        },
        Command::Confirm => match app.selected_state.selected() {
            Some(u) => {
                if b == CurrentBlock::Env && u == 0 {
                    app.user_profile = UserProfile::new();
                    app.enter_fixed(CurrentBlock::EnvEdit);
                    Effect::Nothing
                } else {
                    Effect::LoadProfile(app.list_profile[u].clone())
                }
            },
            None => Effect::Nothing,
        },
        Command::Delete => match app.selected_state.selected() {
            Some(u) => {
                if b == CurrentBlock::Env && u > 0 {
                    let ghost before = app.list_profile@;
                    let name = app.list_profile.remove(u);
                    proof {
                        lemma_string_views_remove(before, u as int);
                    }
                    let n = app.list_profile.len();
                    app.selected_state.set_max(n);
                    Effect::DeleteProfile(name)
                } else {
                    Effect::Nothing
                }
            },
            None => Effect::Nothing,
        },
        _ => Effect::Nothing,
    }
}

pub fn env(app: &mut App, cmd: Command) -> (r: Effect)
    requires
        old(app).wf(),
        old(app).current_block is Env,
    ensures
        final(app).wf(),
        (final(app)@, r@) == step(old(app)@, cmd),
{
    profile_list(app, cmd)
}

pub fn up(app: &mut App, cmd: Command) -> (r: Effect)
    requires
        old(app).wf(),
        old(app).current_block is Up,
    ensures
        final(app).wf(),
        (final(app)@, r@) == step(old(app)@, cmd),
{
    profile_list(app, cmd)
}

pub fn down(app: &mut App, cmd: Command) -> (r: Effect)
    requires
        old(app).wf(),
        old(app).current_block is Down,
    ensures
        final(app).wf(),
        (final(app)@, r@) == step(old(app)@, cmd),
{
    profile_list(app, cmd)
}

pub fn start(app: &mut App, cmd: Command) -> (r: Effect)
    requires
        old(app).wf(),
        old(app).current_block is Start,
    ensures
        final(app).wf(),
        (final(app)@, r@) == step(old(app)@, cmd),
{
    profile_list(app, cmd)
}

pub fn stop(app: &mut App, cmd: Command) -> (r: Effect)
    requires
        old(app).wf(),
        old(app).current_block is Stop,
    ensures
        final(app).wf(),
        (final(app)@, r@) == step(old(app)@, cmd),
{
    profile_list(app, cmd)
}

/// The profile editor: four text fields and a `save` row.
pub fn env_edit(app: &mut App, cmd: Command) -> (r: Effect)
    requires
        old(app).wf(),
        old(app).current_block is EnvEdit,
    ensures
        final(app).wf(),
        (final(app)@, r@) == step(old(app)@, cmd),
{
    app.notice = None;
    match app.input_mode {
        InputMode::Normal => match cmd {
            Command::Cancel => {
                app.enter_list(CurrentBlock::Env);
                Effect::ListProfiles
            },
            Command::MoveUp | Command::MoveDown => {
                move_cursor(app, cmd);
                Effect::Nothing
            },
            Command::Confirm => match app.selected_state.selected() {
                Some(i) => {
                    if i < 4 {
                        app.input_mode = InputMode::Insert;
                        Effect::Nothing
                    } else if app.user_profile.is_complete() {
                        Effect::SaveProfile(app.user_profile.to_profile())
                    } else {
                        app.notice = Some(Notice::IncompleteProfile);
                        Effect::Nothing
                    }
                },
                None => Effect::Nothing,
            },
            _ => Effect::Nothing,
        },
        InputMode::Insert => {
            match (cmd, app.selected_state.selected()) {
                (Command::Confirm, _) | (Command::Cancel, _) => {
                    app.input_mode = InputMode::Normal;
                },
                (Command::Char(ch), Some(i)) => {
                    if i == 0 {
                        app.user_profile.profile.push(ch);
                    } else if i == 1 {
                        app.user_profile.username.push(ch);
                    } else if i == 2 {
                        app.user_profile.hostname.push(ch);
                    } else {
                        app.user_profile.path.push(ch);
                    }
                },
                (Command::Backspace, Some(i)) => {
                    if i == 0 {
                        app.user_profile.profile.pop();
                    } else if i == 1 {
                        app.user_profile.username.pop();
                    } else if i == 2 {
                        app.user_profile.hostname.pop();
                    } else {
                        app.user_profile.path.pop();
                    }
                },
                _ => {},
            }
            Effect::Nothing
        },
    }
}

/// A screen that asks for a service name (empty: all services) and runs its action.
fn target_screen(app: &mut App, cmd: Command) -> (r: Effect)
    requires
        old(app).wf(),
        is_target(old(app).current_block),
    ensures
        final(app).wf(),
        (final(app)@, r@) == step(old(app)@, cmd),
{
    app.notice = None;
    match app.input_mode {
        InputMode::Normal => match cmd {
            Command::Cancel => {
                let parent = match app.current_block {
                    CurrentBlock::StartTarget => CurrentBlock::Start,
                    CurrentBlock::StopTarget => CurrentBlock::Stop,
                    _ => CurrentBlock::Up,
                };
                app.enter_list(parent);
                Effect::ListProfiles
            },
            Command::MoveUp | Command::MoveDown => {
                move_cursor(app, cmd);
                Effect::Nothing
            },
            Command::Confirm => match app.selected_state.selected() {
                Some(i) => {
                    if i == 0 {
                        app.input_mode = InputMode::Insert;
                        Effect::Nothing
                    } else {
                        let action = match app.current_block {
                            CurrentBlock::StartTarget => Action::Start,
                            CurrentBlock::StopTarget => Action::Stop,
                            _ => Action::Up,
                        };
                        let modifier = if app.user_profile.target.as_str().is_empty() {
                            None
                        } else {
                            Some(Modifier::Target(app.user_profile.target.clone()))
                        };
                        Effect::Run(
                            CommandRequest {
                                action,
                                profile: app.user_profile.to_profile(),
                                modifier,
                            },
                        )
                    }
                },
                None => Effect::Nothing,
            },
            _ => Effect::Nothing,
        },
        InputMode::Insert => {
            match cmd {
                Command::Confirm | Command::Cancel => {
                    app.input_mode = InputMode::Normal;
                },
                Command::Char(ch) => {
                    app.user_profile.target.push(ch);
                },
                Command::Backspace => {
                    app.user_profile.target.pop();
                },
                _ => {},
            }
            Effect::Nothing
        },
    }
}

pub fn up_target(app: &mut App, cmd: Command) -> (r: Effect)
    requires
        old(app).wf(),
        old(app).current_block is UpTarget,
    ensures
        final(app).wf(),
        (final(app)@, r@) == step(old(app)@, cmd),
{
    target_screen(app, cmd)
}

pub fn start_target(app: &mut App, cmd: Command) -> (r: Effect)
    requires
        old(app).wf(),
        old(app).current_block is StartTarget,
    ensures
        final(app).wf(),
        (final(app)@, r@) == step(old(app)@, cmd),
{
    target_screen(app, cmd)
}

pub fn stop_target(app: &mut App, cmd: Command) -> (r: Effect)
    requires
        old(app).wf(),
        old(app).current_block is StopTarget,
    ensures
        final(app).wf(),
        (final(app)@, r@) == step(old(app)@, cmd),
{
    target_screen(app, cmd)
}

/// The `down` screen: its rows run `down` keeping all images, removing local
/// images, or removing all images.
pub fn down_rmi(app: &mut App, cmd: Command) -> (r: Effect)
    requires
        old(app).wf(),
        old(app).current_block is DownRmi,
    ensures
        final(app).wf(),
        (final(app)@, r@) == step(old(app)@, cmd),
{
    app.notice = None;
    match cmd {
        Command::Cancel => {
            app.enter_list(CurrentBlock::Down);
            Effect::ListProfiles
        },
        Command::MoveUp | Command::MoveDown => {
            move_cursor(app, cmd);
            Effect::Nothing
        },
        Command::Confirm => match app.selected_state.selected() {
            Some(k) => {
                let rmi = if k == 1 {
                    Some(Scope::Local)
                } else if k == 2 {
                    Some(Scope::All)
                } else {
                    None
                };
                app.user_profile.set_rmi(rmi);
                let modifier = match rmi {
                    Some(s) => Some(Modifier::Rmi(s)),
                    None => None,
                };
                Effect::Run(
                    CommandRequest {
                        action: Action::Down,
                        profile: app.user_profile.to_profile(),
                        modifier,
                    },
                )
            },
            None => Effect::Nothing,
        },
        _ => Effect::Nothing,
    }
}

/// Hands one key to the screen the session is on.
pub fn handle_key(app: &mut App, key: Key) -> (r: Effect)
    requires
        old(app).wf(),
    ensures
        final(app).wf(),
        (final(app)@, r@) == step(old(app)@, spec_classify(key, old(app).input_mode)),
{
    let cmd = classify(key, app.input_mode);
    match app.current_block {
        CurrentBlock::Main => main_menu(app, cmd),
        CurrentBlock::Env => env(app, cmd),
        CurrentBlock::EnvEdit => env_edit(app, cmd),
        CurrentBlock::Up => up(app, cmd),
        CurrentBlock::UpTarget => up_target(app, cmd),
        CurrentBlock::Down => down(app, cmd),
        CurrentBlock::DownRmi => down_rmi(app, cmd),
        CurrentBlock::Start => start(app, cmd),
        CurrentBlock::StartTarget => start_target(app, cmd),
        CurrentBlock::Stop => stop(app, cmd),
        CurrentBlock::StopTarget => stop_target(app, cmd),
    }
}

/// Where `Cancel` in normal mode leads from a screen other than the main menu:
/// from a list back to the main menu, from any other screen back to its list.
pub open spec fn cancel_target(b: CurrentBlock) -> CurrentBlock {
    if is_list(b) {
        CurrentBlock::Main
    } else {
        parent_of(b)
    }
}

/// Every step keeps the session well formed. A step that changes the screen
/// is taken in normal mode and leaves the session in normal mode. `Cancel` in
/// normal mode leads from every screen but the main menu to its parent screen,
/// and on the main menu asks for the session to end.
pub proof fn lemma_step_screens(s: AppView, c: Command)
    requires
        s.wf(),
    ensures
        step(s, c).0.wf(),
        step(s, c).0.block != s.block ==> s.mode is Normal && step(s, c).0.mode is Normal,
        s.mode is Normal && c is Cancel && !(s.block is Main) ==> step(s, c).0.block
            == cancel_target(s.block) && step(s, c).0.mode is Normal,
        s.block is Main && c is Cancel ==> step(s, c).1 is Exit && step(s, c).0.block is Main,
{
}

/// The replies of the store also change the screen only into normal mode, and
/// keep the session well formed.
pub proof fn lemma_store_replies(
    s: AppView,
    names: Result<Seq<Seq<char>>, StoreError>,
    p: Result<ProfileView, StoreError>,
    saved: Result<(), StoreError>,
)
    requires
        s.wf(),
        names matches Ok(ns) ==> ns.len() < usize::MAX,
    ensures
        s.spec_show_profiles(names).wf(),
        s.spec_show_profiles(names).block == s.block,
        s.spec_profile_loaded(p).wf(),
        s.spec_profile_loaded(p).block != s.block ==> s.spec_profile_loaded(p).mode is Normal,
        s.spec_profile_saved(saved).0.wf(),
        s.spec_profile_saved(saved).0.block != s.block ==> s.spec_profile_saved(saved).0.mode is Normal,
{
}

/// Every screen can be reached from the main menu. Confirming row `i` of the
/// menu opens list screen `i + 1` and asks for the profile names. Once the
/// store has listed profile `p`, confirming its row asks for `p`, and once the
/// store has handed `p` over, the screen for acting on it is open; on the
/// editor's list the `<new>` row opens the editor at once.
pub proof fn lemma_screens_reachable(s: AppView, i: usize, p: ProfileView)
    requires
        s.wf(),
        s.block is Main,
        s.cursor.current == Some(i),
    ensures
        ({
            let (t, e) = step(s, Command::Confirm);
            let listed = t.spec_show_profiles(Ok(seq![p.name]));
            let (u, f) = step(listed, Command::Confirm);
            &&& t.block == block_of_index(i + 1)
            &&& is_list(t.block)
            &&& e is ListProfiles
            &&& i == 0 ==> u.block is EnvEdit
            &&& i > 0 ==> f == EffectView::LoadProfile(p.name) && u.spec_profile_loaded(
                Ok(p),
            ).block == detail_of(t.block) && u.spec_profile_loaded(Ok(p)).profile.profile
                == p.name
        }),
{
}

} // verus!
