//! The session record, its view, and the updates that the screens share.

use vstd::prelude::*;
use crate::cursor::SelectedState;
use crate::model::{
    empty_user_profile, user_profile_of, CommandResult, CurrentBlock, Effect, EffectView, InputMode,
    Notice, Profile, ProfileView, StoreError, UserProfile, UserProfileView,
};

verus! {

/// The mutable record of one interactive session.
#[derive(Debug)]
pub struct App {
    pub selected_state: SelectedState,
    pub current_block: CurrentBlock,
    pub user_profile: UserProfile,
    pub list_profile: Vec<String>,
    pub input_mode: InputMode,
    pub notice: Option<Notice>,
    pub last_result: Option<CommandResult>,
}

pub struct AppView {
    pub cursor: SelectedState,
    pub block: CurrentBlock,
    pub profile: UserProfileView,
    pub list: Seq<Seq<char>>,
    pub mode: InputMode,
    pub notice: Option<Notice>,
    pub last_result: Option<CommandResult>,
}

pub open spec fn string_views(v: Seq<String>) -> Seq<Seq<char>> {
    v.map_values(|s: String| s@)
}

pub proof fn lemma_string_views_push(v: Seq<String>, s: String)
    ensures
        string_views(v.push(s)) == string_views(v).push(s@),
{
    assert(string_views(v.push(s)) =~= string_views(v).push(s@));
}

impl View for App {
    type V = AppView;

    open spec fn view(&self) -> AppView {
        AppView {
            cursor: self.selected_state,
            block: self.current_block,
            profile: self.user_profile@,
            list: string_views(self.list_profile@),
            mode: self.input_mode,
            notice: self.notice,
            last_result: self.last_result,
        }
    }
}

/// The label of the row that opens an empty profile for editing.
pub open spec fn new_row() -> Seq<char> {
    "<new>"@
}

/// Screens that list stored profiles.
pub open spec fn is_list(b: CurrentBlock) -> bool {
    ||| b is Env
    ||| b is Up
    ||| b is Down
    ||| b is Start
    ||| b is Stop
}

/// Screens that ask for a service name before running an action.
pub open spec fn is_target(b: CurrentBlock) -> bool {
    ||| b is UpTarget
    ||| b is StartTarget
    ||| b is StopTarget
}

/// The number of rows a screen shows, given the length of the profile list.
pub open spec fn rows(b: CurrentBlock, list_len: nat) -> nat {
    match b {
        CurrentBlock::Main => 5,
        CurrentBlock::EnvEdit => 5,
        CurrentBlock::UpTarget | CurrentBlock::StartTarget | CurrentBlock::StopTarget => 2,
        CurrentBlock::DownRmi => 3,
        _ => list_len,
    }
}

/// The row of the main menu that leads to a list screen.
pub open spec fn origin_row(b: CurrentBlock) -> usize {
    match b {
        CurrentBlock::Up => 1,
        CurrentBlock::Down => 2,
        CurrentBlock::Start => 3,
        CurrentBlock::Stop => 4,
        _ => 0,
    }
}

/// The screen a list screen leads to once a profile is picked.
pub open spec fn detail_of(b: CurrentBlock) -> CurrentBlock {
    match b {
        CurrentBlock::Up => CurrentBlock::UpTarget,
        CurrentBlock::Down => CurrentBlock::DownRmi,
        CurrentBlock::Start => CurrentBlock::StartTarget,
        CurrentBlock::Stop => CurrentBlock::StopTarget,
        _ => CurrentBlock::EnvEdit,
    }
}

/// The list screen that a detail screen returns to.
pub open spec fn parent_of(b: CurrentBlock) -> CurrentBlock {
    match b {
        CurrentBlock::UpTarget => CurrentBlock::Up,
        CurrentBlock::DownRmi => CurrentBlock::Down,
        CurrentBlock::StartTarget => CurrentBlock::Start,
        CurrentBlock::StopTarget => CurrentBlock::Stop,
        CurrentBlock::EnvEdit => CurrentBlock::Env,
        _ => CurrentBlock::Main,
    }
}

/// The rows a list screen shows before any profile name: the `<new>` row on
/// the profile editor's list, none elsewhere.
pub open spec fn list_prefix(b: CurrentBlock) -> Seq<Seq<char>> {
    if b is Env {
        seq![new_row()]
    } else {
        Seq::empty()
    }
}

impl AppView {
    pub open spec fn wf(self) -> bool {
        &&& self.cursor.wf()
        &&& self.cursor.max == rows(self.block, self.list.len())
        &&& self.mode is Insert ==> {
            ||| self.block is EnvEdit && (self.cursor.current matches Some(i) && i < 4)
            ||| is_target(self.block) && self.cursor.current == Some(0usize)
        }
    }

    /// Opens list screen `b`, whose names are still to come.
    pub open spec fn enter_list(self, b: CurrentBlock) -> AppView {
        AppView {
            block: b,
            profile: empty_user_profile(),
            list: list_prefix(b),
            mode: InputMode::Normal,
            cursor: SelectedState::spec_fresh(list_prefix(b).len() as usize),
            ..self
        }
    }

    /// Opens screen `b`, which shows a fixed number of rows, on its first row.
    pub open spec fn enter_fixed(self, b: CurrentBlock) -> AppView {
        AppView {
            block: b,
            mode: InputMode::Normal,
            cursor: SelectedState::spec_fresh(rows(b, 0) as usize),
            ..self
        }
    }

    pub open spec fn with_cursor(self, cursor: SelectedState) -> AppView {
        AppView { cursor, ..self }
    }

    pub open spec fn with_notice(self, n: Notice) -> AppView {
        AppView { notice: Some(n), ..self }
    }

    /// The update for a list of names read from the store.
    pub open spec fn spec_show_profiles(self, names: Result<Seq<Seq<char>>, StoreError>) -> AppView {
        if is_list(self.block) {
            match names {
                Ok(ns) => AppView {
                    list: list_prefix(self.block) + ns,
                    cursor: SelectedState::spec_fresh((list_prefix(self.block) + ns).len() as usize),
                    ..self
                },
                Err(e) => self.enter_list(self.block).with_notice(Notice::Store(e)),
            }
        } else {
            self
        }
    }

    /// The update for a profile read from the store after it was picked on a list.
    pub open spec fn spec_profile_loaded(self, p: Result<ProfileView, StoreError>) -> AppView {
        if is_list(self.block) && self.mode is Normal {
            match p {
                Ok(p) => AppView { profile: user_profile_of(p), ..self }.enter_fixed(
                    detail_of(self.block),
                ),
                Err(e) => self.with_notice(Notice::Store(e)),
            }
        } else {
            self
        }
    }

    /// The update, and what to do next, once the edited profile was stored or not.
    pub open spec fn spec_profile_saved(self, r: Result<(), StoreError>) -> (AppView, EffectView) {
        if self.block is EnvEdit {
            match r {
                Ok(_) => (self.enter_list(CurrentBlock::Env), EffectView::ListProfiles),
                Err(e) => (self.with_notice(Notice::Store(e)), EffectView::Nothing),
            }
        } else {
            (self, EffectView::Nothing)
        }
    }
}

impl App {
    pub open spec fn wf(&self) -> bool {
        self@.wf()
    }

    /// A session on the main menu, with its first row selected.
    pub fn new() -> (r: App)
        ensures
            r@ == (AppView {
                cursor: SelectedState { max: 5, current: Some(0) },
                block: CurrentBlock::Main,
                profile: empty_user_profile(),
                list: Seq::empty(),
                mode: InputMode::Normal,
                notice: None,
                last_result: None,
            }),
            r.wf(),
    {
        let r = App {
            selected_state: SelectedState { max: 5, current: Some(0) },
            current_block: CurrentBlock::Main,
            user_profile: UserProfile::new(),
            list_profile: Vec::new(),
            input_mode: InputMode::Normal,
            notice: None,
            last_result: None,
        };
        assert(r@.list =~= Seq::empty());
        r
    }

    pub(crate) fn enter_list(&mut self, b: CurrentBlock)
        requires
            is_list(b),
        ensures
            final(self)@ == old(self)@.enter_list(b),
            final(self).wf(),
    {
        self.current_block = b;
        self.user_profile = UserProfile::new();
        self.list_profile = Vec::new();
        if b == CurrentBlock::Env {
            self.list_profile.push("<new>".to_owned());
        }
        self.input_mode = InputMode::Normal;
        self.selected_state = SelectedState::new(self.list_profile.len());
        assert(self@.list =~= list_prefix(b));
    }

    pub(crate) fn enter_fixed(&mut self, b: CurrentBlock)
        requires
            !is_list(b),
            !(b is Main),
        ensures
            final(self)@ == old(self)@.enter_fixed(b),
    {
        let n: usize = match b {
            CurrentBlock::DownRmi => 3,
            CurrentBlock::EnvEdit => 5,
            _ => 2,
        };
        self.current_block = b;
        self.input_mode = InputMode::Normal;
        self.selected_state = SelectedState::new(n);
    }

    /// Takes the profile names read from the store, or the error that reading gave.
    pub fn show_profiles(&mut self, names: Result<Vec<String>, StoreError>)
        requires
            old(self).wf(),
            names matches Ok(ns) ==> ns.len() < usize::MAX,
        ensures
            final(self)@ == old(self)@.spec_show_profiles(
                match names {
                    Ok(ns) => Ok(string_views(ns@)),
                    Err(e) => Err(e),
                },
            ),
            final(self).wf(),
    {
        if !is_list_block(self.current_block) {
            return;
        }
        match names {
            Ok(ns) => {
                let mut list: Vec<String> = Vec::new();
                if self.current_block == CurrentBlock::Env {
                    list.push("<new>".to_owned());
                }
                let ghost prefix = list_prefix(self.current_block);
                assert(string_views(list@) =~= prefix);
                let mut i: usize = 0;
                while i < ns.len()
                    invariant
                        0 <= i <= ns.len(),
                        ns.len() < usize::MAX,
                        prefix.len() <= 1,
                        list.len() == prefix.len() + i,
                        string_views(list@) =~= prefix + string_views(ns@.subrange(0, i as int)),
                    decreases ns.len() - i,
                {
                    let ghost before = list@;
                    list.push(ns[i].clone());
                    proof {
                        lemma_string_views_push(before, ns@[i as int]);
                    }
                    assert(string_views(ns@.subrange(0, i + 1)) =~= string_views(
                        ns@.subrange(0, i as int),
                    ).push(ns@[i as int]@));
                    i = i + 1;
                }
                assert(ns@.subrange(0, ns.len() as int) =~= ns@);
                self.list_profile = list;
                self.selected_state = SelectedState::new(self.list_profile.len());
            },
            Err(e) => {
                let b = self.current_block;
                self.enter_list(b);
                self.notice = Some(Notice::Store(e));
            },
        }
    }

    /// Takes the profile picked on a list screen, as read from the store, or the
    /// error that reading gave.
    pub fn profile_loaded(&mut self, p: Result<Profile, StoreError>)
        requires
            old(self).wf(),
        ensures
            final(self)@ == old(self)@.spec_profile_loaded(
                match p {
                    Ok(p) => Ok(p@),
                    Err(e) => Err(e),
                },
            ),
            final(self).wf(),
    {
        if !is_list_block(self.current_block) || self.input_mode != InputMode::Normal {
            return;
        }
        match p {
            Ok(p) => {
                self.user_profile.set(p.name, p.username, p.hostname, p.path, None, String::new());
                let b = detail_block(self.current_block);
                self.enter_fixed(b);
            },
            Err(e) => {
                self.notice = Some(Notice::Store(e));
            },
        }
    }

    /// Takes the outcome of storing the edited profile; on success the caller
    /// is to list the profiles again.
    pub fn profile_saved(&mut self, r: Result<(), StoreError>) -> (e: Effect)
        requires
            old(self).wf(),
        ensures
            (final(self)@, e@) == old(self)@.spec_profile_saved(r),
            final(self).wf(),
    {
        if self.current_block != CurrentBlock::EnvEdit {
            return Effect::Nothing;
        }
        match r {
            Ok(_) => {
                self.enter_list(CurrentBlock::Env);
                Effect::ListProfiles
            },
            Err(e) => {
                self.notice = Some(Notice::Store(e));
                Effect::Nothing
            },
        }
    }

    /// Shows a store failure that has no other place, such as a failed removal.
    pub fn report(&mut self, e: StoreError)
        ensures
            final(self)@ == old(self)@.with_notice(Notice::Store(e)),
    {
        self.notice = Some(Notice::Store(e));
    }

    /// Keeps the result of the remote action for display.
    pub fn command_finished(&mut self, r: CommandResult)
        ensures
            final(self)@ == (AppView { last_result: Some(r), ..old(self)@ }),
    {
        self.last_result = Some(r);
    }
}

impl Default for App {
    fn default() -> (r: App)
        ensures
            r.wf(),
            r@.block is Main,
    {
        App::new()
    }
}

pub(crate) fn is_list_block(b: CurrentBlock) -> (r: bool)
    ensures
        r == is_list(b),
{
    match b {
        CurrentBlock::Env | CurrentBlock::Up | CurrentBlock::Down | CurrentBlock::Start
        | CurrentBlock::Stop => true,
        _ => false,
    }
}

pub(crate) fn detail_block(b: CurrentBlock) -> (r: CurrentBlock)
    ensures
        r == detail_of(b),
{
    match b {
        CurrentBlock::Up => CurrentBlock::UpTarget,
        CurrentBlock::Down => CurrentBlock::DownRmi,
        CurrentBlock::Start => CurrentBlock::StartTarget,
        CurrentBlock::Stop => CurrentBlock::StopTarget,
        _ => CurrentBlock::EnvEdit,
    }
}

} // verus!
