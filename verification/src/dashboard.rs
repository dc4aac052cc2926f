//! The state of the dashboard: the list of profiles, the form that adds
//! one, and what a key press does to either.

use vstd::prelude::*;
use crate::import::DEFAULT_PORT;
use crate::profile::{default_group, default_group_text, AuthSpec, AuthType, Server, ServerSpec};
use crate::text::{parse_u16, parsed_u16};

verus! {

/// Whether keys move through the list or fill in the form.
#[derive(Clone, Copy, Debug, PartialEq, Eq, Structural)]
pub enum InputMode {
    Normal,
    Editing,
}

/// A field of the form.
#[derive(Clone, Copy, Debug, PartialEq, Eq, Structural)]
pub enum FormFocus {
    Group,
    Name,
    User,
    Host,
    Port,
    AuthType,
    PasswordOrKey,
    Submit,
}

/// What the keys act on.
#[derive(Clone, Copy, Debug, PartialEq, Eq, Structural)]
pub enum Focus {
    ServerList,
    Form(FormFocus),
}

/// The field after `field`, round and round.
pub open spec fn next_focus(field: FormFocus) -> FormFocus {
    match field {
        FormFocus::Group => FormFocus::Name,
        FormFocus::Name => FormFocus::User,
        FormFocus::User => FormFocus::Host,
        FormFocus::Host => FormFocus::Port,
        FormFocus::Port => FormFocus::AuthType,
        FormFocus::AuthType => FormFocus::PasswordOrKey,
        FormFocus::PasswordOrKey => FormFocus::Submit,
        FormFocus::Submit => FormFocus::Group,
    }
}

impl FormFocus {
    /// The field after this one, round and round.
    pub fn next(&self) -> (field: FormFocus)
        ensures
            field == next_focus(*self),
    {
        match self {
            FormFocus::Group => FormFocus::Name,
            FormFocus::Name => FormFocus::User,
            FormFocus::User => FormFocus::Host,
            FormFocus::Host => FormFocus::Port,
            FormFocus::Port => FormFocus::AuthType,
            FormFocus::AuthType => FormFocus::PasswordOrKey,
            FormFocus::PasswordOrKey => FormFocus::Submit,
            FormFocus::Submit => FormFocus::Group,
        }
    }

    /// Whether the field takes text.
    pub fn takes_text(&self) -> (yes: bool)
        ensures
            yes == (*self != FormFocus::AuthType && *self != FormFocus::Submit),
    {
        match self {
            FormFocus::AuthType => false,
            FormFocus::Submit => false,
            _ => true,
        }
    }
}

/// Eight steps through the form lead back to where they began.
pub proof fn lemma_focus_cycle(field: FormFocus)
    ensures
        next_focus(
            next_focus(
                next_focus(
                    next_focus(next_focus(next_focus(next_focus(next_focus(field))))),
                ),
            ),
        ) == field,
{
}

/// A key, as far as the dashboard tells keys apart.
#[derive(Clone, Copy, Debug, PartialEq, Eq, Structural)]
pub enum Key {
    Char(char),
    Up,
    Down,
    Left,
    Right,
    Enter,
    Esc,
    Tab,
    Other,
}

/// What is to be done outside after a key.
#[derive(Clone, Copy, Debug, PartialEq, Eq, Structural)]
pub enum Command {
    /// Nothing.
    Nothing,
    /// Leave the dashboard.
    Quit,
    /// Open an interactive session to the profile at this index.
    Connect(usize),
    /// Open a file transfer to the profile at this index.
    Transfer(usize),
    /// Import the user's OpenSSH configuration.
    Import,
    /// Write the catalogue of the dashboard to the store.
    Persist,
    /// Hand the key to the editor of this field.
    Edit(FormFocus),
}

/// Mathematical value of an [`App`].
pub struct AppSpec {
    pub servers: Seq<ServerSpec>,
    pub selected: Option<usize>,
    pub show_popup: bool,
    pub input_mode: InputMode,
    pub focus: Focus,
    pub group_input: Seq<char>,
    pub name_input: Seq<char>,
    pub user_input: Seq<char>,
    pub host_input: Seq<char>,
    pub port_input: Seq<char>,
    pub auth_type_idx: usize,
    pub password_key_input: Seq<char>,
    pub should_quit: bool,
    pub should_connect: Option<usize>,
}

/// The dashboard. Each input holds the first line of its editor.
#[derive(Debug)]
pub struct App {
    pub servers: Vec<Server>,
    /// The index of the profile that is highlighted, if any.
    pub selected: Option<usize>,
    pub show_popup: bool,
    pub input_mode: InputMode,
    pub focus: Focus,
    pub group_input: String,
    pub name_input: String,
    pub user_input: String,
    pub host_input: String,
    pub port_input: String,
    /// 0 for a password, 1 for a key, anything else for the agent.
    pub auth_type_idx: usize,
    pub password_key_input: String,
    pub should_quit: bool,
    /// The index of the profile to connect to.
    pub should_connect: Option<usize>,
}

impl View for App {
    type V = AppSpec;

    open spec fn view(&self) -> AppSpec {
        AppSpec {
            servers: self.servers.deep_view(),
            selected: self.selected,
            show_popup: self.show_popup,
            input_mode: self.input_mode,
            focus: self.focus,
            group_input: self.group_input@,
            name_input: self.name_input@,
            user_input: self.user_input@,
            host_input: self.host_input@,
            port_input: self.port_input@,
            auth_type_idx: self.auth_type_idx,
            password_key_input: self.password_key_input@,
            should_quit: self.should_quit,
            should_connect: self.should_connect,
        }
    }
}

/// The selection one step down a list of `len` profiles: from the last, or
/// from beyond it, to the first; from none to the first; in an empty list
/// it stays.
pub open spec fn selection_after(len: nat, selected: Option<usize>) -> Option<usize> {
    if len == 0 {
        selected
    } else {
        match selected {
            Some(i) => if i >= len - 1 {
                Some(0)
            } else {
                Some((i + 1) as usize)
            },
            None => Some(0),
        }
    }
}

/// The selection one step up a list of `len` profiles: from the first to the
/// last; from none to the first; in an empty list it stays.
pub open spec fn selection_before(len: nat, selected: Option<usize>) -> Option<usize> {
    if len == 0 {
        selected
    } else {
        match selected {
            Some(i) => if i == 0 {
                Some((len - 1) as usize)
            } else {
                Some((i - 1) as usize)
            },
            None => Some(0),
        }
    }
}

/// The dashboard with the form closed.
pub open spec fn closed(app: AppSpec) -> AppSpec {
    AppSpec { show_popup: false, input_mode: InputMode::Normal, focus: Focus::ServerList, ..app }
}

/// The dashboard with the form open and empty, but for the default group
/// and port.
pub open spec fn opened(app: AppSpec) -> AppSpec {
    AppSpec {
        show_popup: true,
        input_mode: InputMode::Editing,
        focus: Focus::Form(FormFocus::Group),
        group_input: default_group_text(),
        name_input: Seq::empty(),
        user_input: Seq::empty(),
        host_input: Seq::empty(),
        port_input: "22"@,
        password_key_input: Seq::empty(),
        auth_type_idx: 0,
        ..app
    }
}

/// The dashboard with the focus on the next field of the form.
pub open spec fn advanced(app: AppSpec) -> AppSpec {
    match app.focus {
        Focus::Form(field) => AppSpec { focus: Focus::Form(next_focus(field)), ..app },
        Focus::ServerList => app,
    }
}

/// The authentication method that the form describes.
pub open spec fn form_auth(app: AppSpec) -> AuthSpec {
    if app.auth_type_idx == 0 {
        AuthSpec::Password(app.password_key_input)
    } else if app.auth_type_idx == 1 {
        AuthSpec::Key(app.password_key_input)
    } else {
        AuthSpec::Agent
    }
}

/// The profile that the form describes; a port that is no number of 16
/// bits counts as 22.
pub open spec fn form_server(app: AppSpec) -> ServerSpec {
    ServerSpec {
        name: app.name_input,
        user: app.user_input,
        host: app.host_input,
        port: match parsed_u16(app.port_input) {
            Some(port) => port,
            None => DEFAULT_PORT,
        },
        auth_type: form_auth(app),
        group: app.group_input,
    }
}

/// The dashboard with the profile of the form added and the form closed.
pub open spec fn submitted(app: AppSpec) -> AppSpec {
    closed(AppSpec { servers: app.servers.push(form_server(app)), ..app })
}

/// The index selected, where it is one of the list.
pub open spec fn target(app: AppSpec) -> Option<usize> {
    match app.selected {
        Some(i) => if i < app.servers.len() {
            Some(i)
        } else {
            None
        },
        None => None,
    }
}

/// The dashboard after a key, and what is to be done outside.
pub open spec fn after_key(app: AppSpec, key: Key) -> (AppSpec, Command) {
    match app.input_mode {
        InputMode::Normal => match key {
            Key::Char('q') => (AppSpec { should_quit: true, ..app }, Command::Quit),
            Key::Char('j') | Key::Down => (
                AppSpec { selected: selection_after(app.servers.len(), app.selected), ..app },
                Command::Nothing,
            ),
            Key::Char('k') | Key::Up => (
                AppSpec { selected: selection_before(app.servers.len(), app.selected), ..app },
                Command::Nothing,
            ),
            Key::Char('a') => (opened(app), Command::Nothing),
            Key::Enter => match target(app) {
                Some(i) => (AppSpec { should_connect: Some(i), ..app }, Command::Connect(i)),
                None => (app, Command::Nothing),
            },
            Key::Char('t') => match target(app) {
                Some(i) => (app, Command::Transfer(i)),
                None => (app, Command::Nothing),
            },
            Key::Char('i') => (app, Command::Import),
            _ => (app, Command::Nothing),
        },
        InputMode::Editing => match key {
            Key::Esc => (closed(app), Command::Nothing),
            Key::Tab => (advanced(app), Command::Nothing),
            Key::Enter => if app.focus == Focus::Form(FormFocus::Submit) {
                (submitted(app), Command::Persist)
            } else {
                (advanced(app), Command::Nothing)
            },
            Key::Left => if app.focus == Focus::Form(FormFocus::AuthType) {
                (
                    AppSpec {
                        auth_type_idx: if app.auth_type_idx > 0 {
                            (app.auth_type_idx - 1) as usize
                        } else {
                            app.auth_type_idx
                        },
                        ..app
                    },
                    Command::Nothing,
                )
            } else {
                (app, edit_command(app.focus))
            },
            Key::Right => if app.focus == Focus::Form(FormFocus::AuthType) {
                (
                    AppSpec {
                        auth_type_idx: if app.auth_type_idx < 2 {
                            (app.auth_type_idx + 1) as usize
                        } else {
                            app.auth_type_idx
                        },
                        ..app
                    },
                    Command::Nothing,
                )
            } else {
                (app, edit_command(app.focus))
            },
            _ => (app, edit_command(app.focus)),
        },
    }
}

/// The command that hands a key to the editor in focus, if the focus is on
/// a field that takes text.
pub open spec fn edit_command(focus: Focus) -> Command {
    match focus {
        Focus::Form(field) => if field != FormFocus::AuthType && field != FormFocus::Submit {
            Command::Edit(field)
        } else {
            Command::Nothing
        },
        Focus::ServerList => Command::Nothing,
    }
}

/// A dashboard with nothing in it.
pub open spec fn blank() -> AppSpec {
    AppSpec {
        servers: Seq::empty(),
        selected: None,
        show_popup: false,
        input_mode: InputMode::Normal,
        focus: Focus::ServerList,
        group_input: Seq::empty(),
        name_input: Seq::empty(),
        user_input: Seq::empty(),
        host_input: Seq::empty(),
        port_input: Seq::empty(),
        auth_type_idx: 0,
        password_key_input: Seq::empty(),
        should_quit: false,
        should_connect: None,
    }
}

impl App {
    /// A dashboard over the given profiles, with the first one selected if
    /// there is one, the form closed and its fields empty.
    pub fn new(servers: Vec<Server>) -> (app: App)
        ensures
            app@ == (AppSpec {
                servers: servers.deep_view(),
                selected: if servers.len() > 0 {
                    Some(0usize)
                } else {
                    None
                },
                ..blank()
            }),
    {
        let selected = if servers.len() > 0 {
            Some(0)
        } else {
            None
        };
        App {
            servers,
            selected,
            show_popup: false,
            input_mode: InputMode::Normal,
            focus: Focus::ServerList,
            group_input: String::new(),
            name_input: String::new(),
            user_input: String::new(),
            host_input: String::new(),
            port_input: String::new(),
            auth_type_idx: 0,
            password_key_input: String::new(),
            should_quit: false,
            should_connect: None,
        }
    }

    /// A tick of the clock changes nothing.
    pub fn on_tick(&mut self)
        ensures
            final(self)@ == old(self)@,
    {
    }

    /// Moves the selection one profile down, from the last to the first.
    pub fn next(&mut self)
        ensures
            final(self)@ == (AppSpec {
                selected: selection_after(old(self)@.servers.len(), old(self)@.selected),
                ..old(self)@
            }),
    {
        if self.servers.len() == 0 {
            return ;
        }
        let i: usize = match self.selected {
            Some(i) => if i >= self.servers.len() - 1 {
                0
            } else {
                i + 1
            },
            None => 0,
        };
        self.selected = Some(i);
    }

    /// Moves the selection one profile up, from the first to the last.
    pub fn previous(&mut self)
        ensures
            final(self)@ == (AppSpec {
                selected: selection_before(old(self)@.servers.len(), old(self)@.selected),
                ..old(self)@
            }),
    {
        if self.servers.len() == 0 {
            return ;
        }
        let i: usize = match self.selected {
            Some(i) => if i == 0 {
                self.servers.len() - 1
            } else {
                i - 1
            },
            None => 0,
        };
        self.selected = Some(i);
    }

    /// Opens the form, empty but for the default group and port.
    pub fn open_add_server_popup(&mut self)
        ensures
            final(self)@ == opened(old(self)@),
    {
        self.show_popup = true;
        self.input_mode = InputMode::Editing;
        self.focus = Focus::Form(FormFocus::Group);
        self.group_input = default_group();
        self.name_input = String::new();
        self.user_input = String::new();
        self.host_input = String::new();
        self.port_input = String::from_str("22");
        self.password_key_input = String::new();
        self.auth_type_idx = 0;
    }

    /// Closes the form and gives the keys back to the list.
    pub fn close_popup(&mut self)
        ensures
            final(self)@ == closed(old(self)@),
    {
        self.show_popup = false;
        self.input_mode = InputMode::Normal;
        self.focus = Focus::ServerList;
    }

    /// Moves the focus to the next field of the form.
    pub fn next_form_field(&mut self)
        ensures
            final(self)@ == advanced(old(self)@),
    {
        if let Focus::Form(current) = self.focus {
            self.focus = Focus::Form(current.next());
        }
    }

    /// Adds the profile that the form describes and closes the form.
    pub fn save_server(&mut self)
        ensures
            final(self)@ == submitted(old(self)@),
    {
        let port = match parse_u16(self.port_input.as_str()) {
            Some(port) => port,
            None => DEFAULT_PORT,
        };
        let auth_type = if self.auth_type_idx == 0 {
            AuthType::Password(self.password_key_input.clone())
        } else if self.auth_type_idx == 1 {
            AuthType::Key(self.password_key_input.clone())
        } else {
            AuthType::Agent
        };
        let server = Server {
            group: self.group_input.clone(),
            name: self.name_input.clone(),
            user: self.user_input.clone(),
            host: self.host_input.clone(),
            port,
            auth_type,
        };
        assert(server@ == form_server(old(self)@));
        self.servers.push(server);
        assert(self.servers.deep_view() =~= old(self)@.servers.push(form_server(old(self)@)));
        self.close_popup();
    }

    /// The index selected, where it is one of the list.
    pub fn target(&self) -> (index: Option<usize>)
        ensures
            index == target(self@),
    {
        match self.selected {
            Some(i) => if i < self.servers.len() {
                Some(i)
            } else {
                None
            },
            None => None,
        }
    }

    /// Takes the first line of an editor into the form.
    pub fn set_input(&mut self, field: FormFocus, text: String)
        ensures
            final(self)@ == match field {
                FormFocus::Group => AppSpec { group_input: text@, ..old(self)@ },
                FormFocus::Name => AppSpec { name_input: text@, ..old(self)@ },
                FormFocus::User => AppSpec { user_input: text@, ..old(self)@ },
                FormFocus::Host => AppSpec { host_input: text@, ..old(self)@ },
                FormFocus::Port => AppSpec { port_input: text@, ..old(self)@ },
                FormFocus::PasswordOrKey => AppSpec { password_key_input: text@, ..old(self)@ },
                _ => old(self)@,
            },
    {
        match field {
            FormFocus::Group => {
                self.group_input = text;
            },
            FormFocus::Name => {
                self.name_input = text;
            },
            FormFocus::User => {
                self.user_input = text;
            },
            FormFocus::Host => {
                self.host_input = text;
            },
            FormFocus::Port => {
                self.port_input = text;
            },
            FormFocus::PasswordOrKey => {
                self.password_key_input = text;
            },
            _ => {},
        }
    }

    /// The command that hands a key to the editor in focus.
    pub fn edit_command(&self) -> (command: Command)
        ensures
            command == edit_command(self@.focus),
    {
        match self.focus {
            Focus::Form(field) => if field.takes_text() {
                Command::Edit(field)
            } else {
                Command::Nothing
            },
            Focus::ServerList => Command::Nothing,
        }
    }

    /// Takes a key and says what is to be done outside.
    pub fn on_key(&mut self, key: Key) -> (command: Command)
        ensures
            (final(self)@, command) == after_key(old(self)@, key),
    {
        match self.input_mode {
            InputMode::Normal => match key {
                Key::Char('q') => {
                    self.should_quit = true;
                    Command::Quit
                },
                Key::Char('j') | Key::Down => {
                    self.next();
                    Command::Nothing
                },
                Key::Char('k') | Key::Up => {
                    self.previous();
                    Command::Nothing
                },
                Key::Char('a') => {
                    self.open_add_server_popup();
                    Command::Nothing
                },
                Key::Enter => match self.target() {
                    Some(i) => {
                        self.should_connect = Some(i);
                        Command::Connect(i)
                    },
                    None => Command::Nothing,
                },
                Key::Char('t') => match self.target() {
                    Some(i) => Command::Transfer(i),
                    None => Command::Nothing,
                },
                Key::Char('i') => Command::Import,
                _ => Command::Nothing,
            },
            InputMode::Editing => match key {
                Key::Esc => {
                    self.close_popup();
                    Command::Nothing
                },
                Key::Tab => {
                    self.next_form_field();
                    Command::Nothing
                },
                Key::Enter => {
                    if self.focus == Focus::Form(FormFocus::Submit) {
                        self.save_server();
                        Command::Persist
                    } else {
                        self.next_form_field();
                        Command::Nothing
                    }
                },
                Key::Left => {
                    if self.focus == Focus::Form(FormFocus::AuthType) {
                        if self.auth_type_idx > 0 {
                            self.auth_type_idx -= 1;
                        }
                        Command::Nothing
                    } else {
                        self.edit_command()
                    }
                },
                Key::Right => {
                    if self.focus == Focus::Form(FormFocus::AuthType) {
                        if self.auth_type_idx < 2 {
                            self.auth_type_idx += 1;
                        }
                        Command::Nothing
                    } else {
                        self.edit_command()
                    }
                },
                _ => self.edit_command(),
            },
        }
    }
}

} // verus!
