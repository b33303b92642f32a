use pcode_cli::cursor::SelectedState;
use pcode_cli::event::{env_edit, handle_key, main_menu};
use pcode_cli::model::{
    classify, Action, Command, CommandRequest, CommandResult, CurrentBlock, Effect, InputMode, Key,
    Modifier, Notice, Profile, Scope, StoreError,
};
use pcode_cli::state::App;
use pcode_cli::store::profile_names;

/// An in-memory store of profiles, in the order they were saved.
struct Store {
    profiles: Vec<Profile>,
}

impl Store {
    fn names(&self) -> Vec<String> {
        let files: Vec<String> = self.profiles.iter().map(|p| format!("{}.env", p.name)).collect();
        profile_names(&files)
    }

    /// Carries out an effect the way the terminal front end does, and returns
    /// the last request to run, if any.
    fn apply(&mut self, app: &mut App, e: Effect) -> Option<CommandRequest> {
        match e {
            Effect::Nothing | Effect::Exit => None,
            Effect::ListProfiles => {
                app.show_profiles(Ok(self.names()));
                None
            }
            Effect::LoadProfile(name) => {
                let found = self.profiles.iter().find(|p| p.name == name).cloned();
                app.profile_loaded(found.ok_or(StoreError::NotFound));
                None
            }
            Effect::SaveProfile(p) => {
                self.profiles.retain(|q| q.name != p.name);
                self.profiles.push(p);
                let next = app.profile_saved(Ok(()));
                self.apply(app, next)
            }
            Effect::DeleteProfile(name) => {
                self.profiles.retain(|q| q.name != name);
                None
            }
            Effect::Run(r) => Some(r),
        }
    }

    fn press(&mut self, app: &mut App, k: Key) -> Option<CommandRequest> {
        let e = handle_key(app, k);
        self.apply(app, e)
    }

    fn type_text(&mut self, app: &mut App, text: &str) {
        for c in text.chars() {
            self.press(app, Key::Char(c));
        }
    }
}

fn profile(name: &str) -> Profile {
    Profile {
        name: name.to_string(),
        username: "u".to_string(),
        hostname: "h".to_string(),
        path: "/srv".to_string(),
    }
}

fn store_with_p1() -> Store {
    Store { profiles: vec![profile("p1")] }
}

#[test]
fn keys_mean_shortcuts_only_in_normal_mode() {
    assert_eq!(classify(Key::Char('q'), InputMode::Normal), Command::Cancel);
    assert_eq!(classify(Key::Char('q'), InputMode::Insert), Command::Char('q'));
    assert_eq!(classify(Key::Char('j'), InputMode::Normal), Command::MoveDown);
    assert_eq!(classify(Key::Char('k'), InputMode::Normal), Command::MoveUp);
    assert_eq!(classify(Key::Char('e'), InputMode::Normal), Command::Confirm);
    assert_eq!(classify(Key::Char('d'), InputMode::Normal), Command::Delete);
    assert_eq!(classify(Key::Char('x'), InputMode::Normal), Command::Ignore);
    assert_eq!(classify(Key::Enter, InputMode::Insert), Command::Confirm);
    assert_eq!(classify(Key::Esc, InputMode::Insert), Command::Cancel);
    assert_eq!(classify(Key::Backspace, InputMode::Insert), Command::Backspace);
    assert_eq!(classify(Key::Up, InputMode::Insert), Command::Ignore);
}

#[test]
fn blocks_are_numbered_in_order() {
    assert_eq!(CurrentBlock::from_usize(0), CurrentBlock::Main);
    assert_eq!(CurrentBlock::from_usize(1), CurrentBlock::Env);
    assert_eq!(CurrentBlock::from_usize(5), CurrentBlock::Stop);
    assert_eq!(CurrentBlock::from_usize(8), CurrentBlock::DownRmi);
    assert_eq!(CurrentBlock::from_usize(10), CurrentBlock::StopTarget);
}

#[test]
fn session_starts_on_main_menu() {
    let app = App::default();
    assert_eq!(app.current_block, CurrentBlock::Main);
    assert_eq!(app.selected_state, SelectedState { max: 5, current: Some(0) });
    assert_eq!(app.input_mode, InputMode::Normal);
    assert!(app.list_profile.is_empty());
}

#[test]
fn cancel_on_main_menu_exits() {
    let mut app = App::new();
    assert_eq!(handle_key(&mut app, Key::Esc), Effect::Exit);
    assert_eq!(main_menu(&mut app, Command::Cancel), Effect::Exit);
    assert_eq!(app.current_block, CurrentBlock::Main);
}

#[test]
fn new_profile_is_saved_and_listed() {
    let mut store = Store { profiles: vec![] };
    let mut app = App::new();
    store.press(&mut app, Key::Enter);
    assert_eq!(app.current_block, CurrentBlock::Env);
    assert_eq!(app.list_profile, vec!["<new>".to_string()]);
    store.press(&mut app, Key::Enter);
    assert_eq!(app.current_block, CurrentBlock::EnvEdit);
    for (row, text) in ["p1", "u", "h", "/srv"].iter().enumerate() {
        assert_eq!(app.selected_state.selected(), Some(row));
        store.press(&mut app, Key::Enter);
        assert_eq!(app.input_mode, InputMode::Insert);
        store.type_text(&mut app, text);
        store.press(&mut app, Key::Enter);
        assert_eq!(app.input_mode, InputMode::Normal);
        store.press(&mut app, Key::Down);
    }
    store.press(&mut app, Key::Enter);
    assert_eq!(store.names(), vec!["p1".to_string()]);
    assert_eq!(store.profiles[0], profile("p1"));
    assert_eq!(app.current_block, CurrentBlock::Env);
    assert_eq!(app.list_profile, vec!["<new>".to_string(), "p1".to_string()]);
    assert_eq!(app.user_profile.profile, "");
}

#[test]
fn up_with_empty_target_runs_on_all_services() {
    let mut store = store_with_p1();
    let mut app = App::new();
    store.press(&mut app, Key::Down);
    store.press(&mut app, Key::Enter);
    assert_eq!(app.current_block, CurrentBlock::Up);
    assert_eq!(app.list_profile, vec!["p1".to_string()]);
    store.press(&mut app, Key::Enter);
    assert_eq!(app.current_block, CurrentBlock::UpTarget);
    assert_eq!(app.user_profile.username, "u");
    store.press(&mut app, Key::Down);
    let r = store.press(&mut app, Key::Enter).unwrap();
    assert_eq!(r, CommandRequest { action: Action::Up, profile: profile("p1"), modifier: None });
    assert_eq!(app.current_block, CurrentBlock::UpTarget);
}

#[test]
fn up_with_target_narrows_to_the_service() {
    let mut store = store_with_p1();
    let mut app = App::new();
    store.press(&mut app, Key::Char('j'));
    store.press(&mut app, Key::Char('e'));
    store.press(&mut app, Key::Char('e'));
    store.press(&mut app, Key::Enter);
    store.type_text(&mut app, "webx");
    store.press(&mut app, Key::Backspace);
    store.press(&mut app, Key::Esc);
    assert_eq!(app.user_profile.target, "web");
    store.press(&mut app, Key::Down);
    let r = store.press(&mut app, Key::Enter).unwrap();
    assert_eq!(r.modifier, Some(Modifier::Target("web".to_string())));
}

#[test]
fn down_with_all_removes_all_images() {
    let mut store = store_with_p1();
    let mut app = App::new();
    store.press(&mut app, Key::Down);
    store.press(&mut app, Key::Down);
    store.press(&mut app, Key::Enter);
    assert_eq!(app.current_block, CurrentBlock::Down);
    store.press(&mut app, Key::Enter);
    assert_eq!(app.current_block, CurrentBlock::DownRmi);
    store.press(&mut app, Key::Down);
    store.press(&mut app, Key::Down);
    let r = store.press(&mut app, Key::Enter).unwrap();
    assert_eq!(r.action, Action::Down);
    assert_eq!(r.modifier, Some(Modifier::Rmi(Scope::All)));
    assert_eq!(app.user_profile.rmi, Some(Scope::All));
}

#[test]
fn down_with_none_and_local() {
    let mut store = store_with_p1();
    let mut app = App::new();
    for k in [Key::Down, Key::Down, Key::Enter, Key::Enter] {
        store.press(&mut app, k);
    }
    let r = store.press(&mut app, Key::Enter).unwrap();
    assert_eq!(r.modifier, None);
    store.press(&mut app, Key::Down);
    let r = store.press(&mut app, Key::Enter).unwrap();
    assert_eq!(r.modifier, Some(Modifier::Rmi(Scope::Local)));
}

#[test]
fn start_and_stop_run_their_actions() {
    let mut store = store_with_p1();
    let mut app = App::new();
    for k in [Key::Down, Key::Down, Key::Down, Key::Enter, Key::Enter] {
        store.press(&mut app, k);
    }
    assert_eq!(app.current_block, CurrentBlock::StartTarget);
    store.press(&mut app, Key::Down);
    assert_eq!(store.press(&mut app, Key::Enter).unwrap().action, Action::Start);
    store.press(&mut app, Key::Esc);
    assert_eq!(app.current_block, CurrentBlock::Start);
    store.press(&mut app, Key::Esc);
    assert_eq!(app.current_block, CurrentBlock::Main);
    assert_eq!(app.selected_state.selected(), Some(3));
    for k in [Key::Down, Key::Enter, Key::Enter, Key::Down] {
        store.press(&mut app, k);
    }
    assert_eq!(app.current_block, CurrentBlock::StopTarget);
    assert_eq!(store.press(&mut app, Key::Enter).unwrap().action, Action::Stop);
}

#[test]
fn cancel_returns_to_parent_screens() {
    let mut store = store_with_p1();
    let mut app = App::new();
    for (row, list) in [(1usize, CurrentBlock::Up), (2, CurrentBlock::Down), (3, CurrentBlock::Start), (4, CurrentBlock::Stop)] {
        app.selected_state.set_current(row);
        store.press(&mut app, Key::Enter);
        assert_eq!(app.current_block, list);
        store.press(&mut app, Key::Enter);
        assert_ne!(app.current_block, list);
        store.press(&mut app, Key::Char('q'));
        assert_eq!(app.current_block, list);
        assert_eq!(app.input_mode, InputMode::Normal);
        store.press(&mut app, Key::Char('q'));
        assert_eq!(app.current_block, CurrentBlock::Main);
        assert_eq!(app.selected_state.selected(), Some(row));
    }
    store.press(&mut app, Key::Up);
    store.press(&mut app, Key::Up);
    store.press(&mut app, Key::Up);
    store.press(&mut app, Key::Up);
    store.press(&mut app, Key::Enter);
    store.press(&mut app, Key::Down);
    store.press(&mut app, Key::Enter);
    assert_eq!(app.current_block, CurrentBlock::EnvEdit);
    assert_eq!(app.user_profile.profile, "p1");
    store.press(&mut app, Key::Esc);
    assert_eq!(app.current_block, CurrentBlock::Env);
    assert_eq!(app.user_profile.profile, "");
    store.press(&mut app, Key::Esc);
    assert_eq!(app.current_block, CurrentBlock::Main);
    assert_eq!(app.selected_state.selected(), Some(0));
}

#[test]
fn insert_mode_is_left_before_any_screen_change() {
    let mut store = store_with_p1();
    let mut app = App::new();
    store.press(&mut app, Key::Enter);
    store.press(&mut app, Key::Enter);
    store.press(&mut app, Key::Enter);
    assert_eq!(app.input_mode, InputMode::Insert);
    store.press(&mut app, Key::Char('q'));
    assert_eq!(app.current_block, CurrentBlock::EnvEdit);
    assert_eq!(app.user_profile.profile, "q");
    store.press(&mut app, Key::Esc);
    assert_eq!(app.input_mode, InputMode::Normal);
    assert_eq!(app.current_block, CurrentBlock::EnvEdit);
    store.press(&mut app, Key::Esc);
    assert_eq!(app.current_block, CurrentBlock::Env);
    assert_eq!(app.input_mode, InputMode::Normal);
}

#[test]
fn delete_removes_the_row_and_the_profile() {
    let mut store = Store { profiles: vec![profile("p1"), profile("p2")] };
    let mut app = App::new();
    store.press(&mut app, Key::Enter);
    assert_eq!(app.list_profile, vec!["<new>", "p1", "p2"]);
    store.press(&mut app, Key::Char('d'));
    assert_eq!(app.list_profile.len(), 3);
    store.press(&mut app, Key::Down);
    store.press(&mut app, Key::Down);
    assert_eq!(handle_key(&mut app, Key::Backspace), Effect::DeleteProfile("p2".to_string()));
    assert_eq!(app.list_profile, vec!["<new>", "p1"]);
    assert_eq!(app.selected_state.selected(), Some(1));
    store.profiles.retain(|p| p.name != "p2");
    store.profiles.retain(|p| p.name != "p2");
    assert_eq!(store.names(), vec!["p1".to_string()]);
}

#[test]
fn incomplete_profile_is_not_saved() {
    let mut store = Store { profiles: vec![] };
    let mut app = App::new();
    store.press(&mut app, Key::Enter);
    store.press(&mut app, Key::Enter);
    app.selected_state.set_current(4);
    assert_eq!(handle_key(&mut app, Key::Enter), Effect::Nothing);
    assert_eq!(app.notice, Some(Notice::IncompleteProfile));
    assert_eq!(app.current_block, CurrentBlock::EnvEdit);
    assert_eq!(env_edit(&mut app, Command::MoveUp), Effect::Nothing);
    assert_eq!(app.notice, None);
}

#[test]
fn store_errors_are_shown_and_keep_the_screen() {
    let mut store = Store { profiles: vec![] };
    let mut app = App::new();
    store.press(&mut app, Key::Down);
    store.press(&mut app, Key::Enter);
    app.show_profiles(Ok(vec!["gone".to_string()]));
    assert_eq!(handle_key(&mut app, Key::Enter), Effect::LoadProfile("gone".to_string()));
    app.profile_loaded(Err(StoreError::NotFound));
    assert_eq!(app.current_block, CurrentBlock::Up);
    assert_eq!(app.notice, Some(Notice::Store(StoreError::NotFound)));
    app.profile_loaded(Err(StoreError::MalformedRecord));
    assert_eq!(app.notice, Some(Notice::Store(StoreError::MalformedRecord)));
    app.show_profiles(Err(StoreError::Io));
    assert_eq!(app.notice, Some(Notice::Store(StoreError::Io)));
    assert!(app.list_profile.is_empty());
    assert_eq!(app.selected_state.selected(), None);
    assert_eq!(handle_key(&mut app, Key::Enter), Effect::Nothing);
    app.report(StoreError::Io);
    assert_eq!(app.notice, Some(Notice::Store(StoreError::Io)));
}

#[test]
fn failed_save_stays_in_the_editor() {
    let mut app = App::new();
    handle_key(&mut app, Key::Enter);
    handle_key(&mut app, Key::Enter);
    assert_eq!(app.profile_saved(Err(StoreError::Io)), Effect::Nothing);
    assert_eq!(app.current_block, CurrentBlock::EnvEdit);
    assert_eq!(app.notice, Some(Notice::Store(StoreError::Io)));
    assert_eq!(app.profile_saved(Ok(())), Effect::ListProfiles);
    assert_eq!(app.current_block, CurrentBlock::Env);
}

#[test]
fn command_result_is_kept() {
    let mut app = App::new();
    let r = CommandResult { stdout: "ok".to_string(), stderr: String::new(), status: Some(1) };
    assert!(!r.succeeded());
    app.command_finished(r.clone());
    assert_eq!(app.last_result, Some(r));
    assert!(CommandResult { stdout: String::new(), stderr: String::new(), status: Some(0) }.succeeded());
}
