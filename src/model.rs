//! The values the screen state machine works on, with their mathematical views.

use vstd::prelude::*;

verus! {

/// The screen the session is on.
#[derive(Debug, Clone, Copy, PartialEq, Eq, Structural)]
pub enum CurrentBlock {
    Main,
    Env,
    Up,
    Down,
    Start,
    Stop,
    EnvEdit,
    UpTarget,
    DownRmi,
    StartTarget,
    StopTarget,
}

pub open spec fn block_of_index(u: int) -> CurrentBlock {
    if u == 0 {
        CurrentBlock::Main
    } else if u == 1 {
        CurrentBlock::Env
    } else if u == 2 {
        CurrentBlock::Up
    } else if u == 3 {
        CurrentBlock::Down
    } else if u == 4 {
        CurrentBlock::Start
    } else if u == 5 {
        CurrentBlock::Stop
    } else if u == 6 {
        CurrentBlock::EnvEdit
    } else if u == 7 {
        CurrentBlock::UpTarget
    } else if u == 8 {
        CurrentBlock::DownRmi
    } else if u == 9 {
        CurrentBlock::StartTarget
    } else {
        CurrentBlock::StopTarget
    }
}

impl CurrentBlock {
    /// The screen with number `u`, in declaration order.
    pub fn from_usize(u: usize) -> (r: CurrentBlock)
        requires
            u < 11,
        ensures
            r == block_of_index(u as int),
    {
        match u {
            0 => CurrentBlock::Main,
            1 => CurrentBlock::Env,
            2 => CurrentBlock::Up,
            3 => CurrentBlock::Down,
            4 => CurrentBlock::Start,
            5 => CurrentBlock::Stop,
            6 => CurrentBlock::EnvEdit,
            7 => CurrentBlock::UpTarget,
            8 => CurrentBlock::DownRmi,
            9 => CurrentBlock::StartTarget,
            _ => CurrentBlock::StopTarget,
        }
    }
}

/// Whether keys move the cursor or edit the highlighted field.
#[derive(Debug, Clone, Copy, PartialEq, Eq, Structural)]
pub enum InputMode {
    Normal,
    Insert,
}

/// Which built images a `down` removes.
#[derive(Debug, Clone, Copy, PartialEq, Eq, Structural)]
pub enum Scope {
    Local,
    All,
}

/// A saved connection record.
#[derive(Debug, Clone, PartialEq, Eq)]
pub struct Profile {
    pub name: String,
    pub username: String,
    pub hostname: String,
    pub path: String,
}

pub struct ProfileView {
    pub name: Seq<char>,
    pub username: Seq<char>,
    pub hostname: Seq<char>,
    pub path: Seq<char>,
}

impl View for Profile {
    type V = ProfileView;

    open spec fn view(&self) -> ProfileView {
        ProfileView {
            name: self.name@,
            username: self.username@,
            hostname: self.hostname@,
            path: self.path@,
        }
    }
}

/// The record being edited or used: a profile, plus the choices made on the
/// screens that act on it.
#[derive(Debug, Clone, PartialEq, Eq)]
pub struct UserProfile {
    pub profile: String,
    pub username: String,
    pub hostname: String,
    pub path: String,
    pub rmi: Option<Scope>,
    pub target: String,
}

pub struct UserProfileView {
    pub profile: Seq<char>,
    pub username: Seq<char>,
    pub hostname: Seq<char>,
    pub path: Seq<char>,
    pub rmi: Option<Scope>,
    pub target: Seq<char>,
}

impl View for UserProfile {
    type V = UserProfileView;

    open spec fn view(&self) -> UserProfileView {
        UserProfileView {
            profile: self.profile@,
            username: self.username@,
            hostname: self.hostname@,
            path: self.path@,
            rmi: self.rmi,
            target: self.target@,
        }
    }
}

pub open spec fn empty_user_profile() -> UserProfileView {
    UserProfileView {
        profile: Seq::empty(),
        username: Seq::empty(),
        hostname: Seq::empty(),
        path: Seq::empty(),
        rmi: None,
        target: Seq::empty(),
    }
}

/// The working record for profile `p`, with no choices made yet.
pub open spec fn user_profile_of(p: ProfileView) -> UserProfileView {
    UserProfileView {
        profile: p.name,
        username: p.username,
        hostname: p.hostname,
        path: p.path,
        rmi: None,
        target: Seq::empty(),
    }
}

/// The stored part of a working record.
pub open spec fn profile_of(u: UserProfileView) -> ProfileView {
    ProfileView { name: u.profile, username: u.username, hostname: u.hostname, path: u.path }
}

pub open spec fn is_complete(u: UserProfileView) -> bool {
    &&& u.profile.len() > 0
    &&& u.username.len() > 0
    &&& u.hostname.len() > 0
    &&& u.path.len() > 0
}

impl UserProfile {
    pub fn new() -> (r: UserProfile)
        ensures
            r@ == empty_user_profile(),
    {
        UserProfile {
            profile: String::new(),
            username: String::new(),
            hostname: String::new(),
            path: String::new(),
            rmi: None,
            target: String::new(),
        }
    }

    pub fn set(
        &mut self,
        profile: String,
        username: String,
        hostname: String,
        path: String,
        rmi: Option<Scope>,
        target: String,
    )
        ensures
            final(self)@ == (UserProfileView {
                profile: profile@,
                username: username@,
                hostname: hostname@,
                path: path@,
                rmi,
                target: target@,
            }),
    {
        self.profile = profile;
        self.username = username;
        self.hostname = hostname;
        self.path = path;
        self.rmi = rmi;
        self.target = target;
    }

    pub fn set_rmi(&mut self, rmi: Option<Scope>)
        ensures
            final(self)@ == (UserProfileView { rmi, ..old(self)@ }),
    {
        self.rmi = rmi;
    }

    /// Whether every stored field has been filled in.
    pub fn is_complete(&self) -> (r: bool)
        ensures
            r == is_complete(self@),
    {
        !self.profile.as_str().is_empty() && !self.username.as_str().is_empty()
            && !self.hostname.as_str().is_empty() && !self.path.as_str().is_empty()
    }

    /// The stored part of this record.
    pub fn to_profile(&self) -> (r: Profile)
        ensures
            r@ == profile_of(self@),
    {
        Profile {
            name: self.profile.clone(),
            username: self.username.clone(),
            hostname: self.hostname.clone(),
            path: self.path.clone(),
        }
    }
}

impl Default for UserProfile {
    fn default() -> (r: UserProfile)
        ensures
            r@ == empty_user_profile(),
    {
        UserProfile::new()
    }
}

/// A remote lifecycle action.
#[derive(Debug, Clone, Copy, PartialEq, Eq, Structural)]
pub enum Action {
    Up,
    Down,
    Start,
    Stop,
}

/// What a remote action is narrowed by: one service, or an image scope.
#[derive(Debug, Clone, PartialEq, Eq)]
pub enum Modifier {
    Target(String),
    Rmi(Scope),
}

pub enum ModifierView {
    Target(Seq<char>),
    Rmi(Scope),
}

impl View for Modifier {
    type V = ModifierView;

    open spec fn view(&self) -> ModifierView {
        match self {
            Modifier::Target(t) => ModifierView::Target(t@),
            Modifier::Rmi(s) => ModifierView::Rmi(*s),
        }
    }
}

/// A remote action to run against the host of a profile.
#[derive(Debug, Clone, PartialEq, Eq)]
pub struct CommandRequest {
    pub action: Action,
    pub profile: Profile,
    pub modifier: Option<Modifier>,
}

pub struct CommandRequestView {
    pub action: Action,
    pub profile: ProfileView,
    pub modifier: Option<ModifierView>,
}

impl View for CommandRequest {
    type V = CommandRequestView;

    open spec fn view(&self) -> CommandRequestView {
        CommandRequestView {
            action: self.action,
            profile: self.profile@,
            modifier: match self.modifier {
                Some(m) => Some(m@),
                None => None,
            },
        }
    }
}

/// What a remote action printed, and how it ended (`None`: it could not be run
/// or was ended by a signal).
#[derive(Debug, Clone, PartialEq, Eq)]
pub struct CommandResult {
    pub stdout: String,
    pub stderr: String,
    pub status: Option<i32>,
}

impl CommandResult {
    pub fn succeeded(&self) -> (r: bool)
        ensures
            r == (self.status == Some(0i32)),
    {
        match self.status {
            Some(code) => code == 0,
            None => false,
        }
    }
}

/// Why the profile store could not do what was asked.
#[derive(Debug, Clone, Copy, PartialEq, Eq, Structural)]
pub enum StoreError {
    NotFound,
    MalformedRecord,
    Io,
}

/// A message shown to the operator on the current screen.
#[derive(Debug, Clone, Copy, PartialEq, Eq, Structural)]
pub enum Notice {
    IncompleteProfile,
    Store(StoreError),
}

/// A key as the terminal reports it.
#[derive(Debug, Clone, Copy, PartialEq, Eq, Structural)]
pub enum Key {
    Enter,
    Esc,
    Up,
    Down,
    Backspace,
    Char(char),
    Other,
}

/// What a key means on a screen, given the input mode.
#[derive(Debug, Clone, Copy, PartialEq, Eq, Structural)]
pub enum Command {
    Confirm,
    Cancel,
    MoveUp,
    MoveDown,
    Delete,
    Char(char),
    Backspace,
    Ignore,
}

pub open spec fn spec_classify(key: Key, mode: InputMode) -> Command {
    match mode {
        InputMode::Normal => match key {
            Key::Esc | Key::Char('q') => Command::Cancel,
            Key::Up | Key::Char('k') => Command::MoveUp,
            Key::Down | Key::Char('j') => Command::MoveDown,
            Key::Enter | Key::Char('e') => Command::Confirm,
            Key::Backspace | Key::Char('d') => Command::Delete,
            _ => Command::Ignore,
        },
        InputMode::Insert => match key {
            Key::Enter => Command::Confirm,
            Key::Esc => Command::Cancel,
            Key::Char(c) => Command::Char(c),
            Key::Backspace => Command::Backspace,
            _ => Command::Ignore,
        },
    }
}

/// Reads a key: in normal mode letters are shortcuts, in insert mode they are text.
pub fn classify(key: Key, mode: InputMode) -> (r: Command)
    ensures
        r == spec_classify(key, mode),
{
    match mode {
        InputMode::Normal => match key {
            Key::Esc | Key::Char('q') => Command::Cancel,
            Key::Up | Key::Char('k') => Command::MoveUp,
            Key::Down | Key::Char('j') => Command::MoveDown,
            Key::Enter | Key::Char('e') => Command::Confirm,
            Key::Backspace | Key::Char('d') => Command::Delete,
            _ => Command::Ignore,
        },
        InputMode::Insert => match key {
            Key::Enter => Command::Confirm,
            Key::Esc => Command::Cancel,
            Key::Char(c) => Command::Char(c),
            Key::Backspace => Command::Backspace,
            _ => Command::Ignore,
        },
    }
}

/// What the caller is to do for the session after a step.
#[derive(Debug, PartialEq, Eq)]
pub enum Effect {
    /// Nothing to do.
    Nothing,
    /// End the session.
    Exit,
    /// List the stored profiles and hand the names to `App::show_profiles`.
    ListProfiles,
    /// Load the named profile and hand it to `App::profile_loaded`.
    LoadProfile(String),
    /// Store the profile and hand the outcome to `App::profile_saved`.
    SaveProfile(Profile),
    /// Remove the named profile from the store; a failure goes to `App::report`.
    DeleteProfile(String),
    /// Run the remote action and hand its result to `App::command_finished`.
    Run(CommandRequest),
}

pub enum EffectView {
    Nothing,
    Exit,
    ListProfiles,
    LoadProfile(Seq<char>),
    SaveProfile(ProfileView),
    DeleteProfile(Seq<char>),
    Run(CommandRequestView),
}

impl View for Effect {
    type V = EffectView;

    open spec fn view(&self) -> EffectView {
        match self {
            Effect::Nothing => EffectView::Nothing,
            Effect::Exit => EffectView::Exit,
            Effect::ListProfiles => EffectView::ListProfiles,
            Effect::LoadProfile(n) => EffectView::LoadProfile(n@),
            Effect::SaveProfile(p) => EffectView::SaveProfile(p@),
            Effect::DeleteProfile(n) => EffectView::DeleteProfile(n@),
            Effect::Run(r) => EffectView::Run(r@),
        }
    }
}

} // verus!
