//! What the dashboard shows, as plain data for a terminal to draw.

use vstd::prelude::*;
use crate::dashboard::{App, AppSpec, Focus, FormFocus, InputMode};
use crate::profile::{AuthSpec, AuthType, Server, ServerSpec};
use crate::text::{decimal_text, u16_text};

verus! {

/// The line of a profile in the list.
pub open spec fn item_text(s: ServerSpec) -> Seq<char> {
    s.name + " ["@ + s.group + "]"@
}

/// The line of a profile in the list: name, then group in brackets.
pub fn item_label(server: &Server) -> (label: String)
    ensures
        label@ == item_text(server@),
{
    let mut label = server.name.clone();
    label.append(" [");
    label.append(server.group.as_str());
    label.append("]");
    label
}

/// The name of an authentication method in the details.
pub open spec fn auth_text(auth: AuthSpec) -> Seq<char> {
    match auth {
        AuthSpec::Password(_) => "Password"@,
        AuthSpec::Key(_) => "SSH Key"@,
        AuthSpec::Agent => "SSH Agent"@,
    }
}

/// The name of an authentication method in the details. The secret is not
/// part of it.
pub fn auth_label(auth: &AuthType) -> (label: String)
    ensures
        label@ == auth_text(auth@),
{
    match auth {
        AuthType::Password(_) => String::from_str("Password"),
        AuthType::Key(_) => String::from_str("SSH Key"),
        AuthType::Agent => String::from_str("SSH Agent"),
    }
}

/// The help in the last line.
pub open spec fn footer_text(mode: InputMode) -> Seq<char> {
    match mode {
        InputMode::Normal => "q: Quit | a: Add | Enter: Connect | t: SFTP | j/k: Nav"@,
        InputMode::Editing => "Esc: Cancel | Tab: Next Field | Enter: Submit"@,
    }
}

/// The help in the last line.
pub fn footer_hint(mode: InputMode) -> (hint: String)
    ensures
        hint@ == footer_text(mode),
{
    match mode {
        InputMode::Normal => String::from_str(
            "q: Quit | a: Add | Enter: Connect | t: SFTP | j/k: Nav",
        ),
        InputMode::Editing => String::from_str("Esc: Cancel | Tab: Next Field | Enter: Submit"),
    }
}

/// The line of the form that shows the authentication method chosen.
pub open spec fn choice_text(auth_type_idx: usize) -> Seq<char> {
    "Auth Type: < "@ + (if auth_type_idx == 0 {
        "Password"@
    } else if auth_type_idx == 1 {
        "Key"@
    } else {
        "Agent"@
    }) + " >"@
}

/// The line of the form that shows the authentication method chosen.
pub fn auth_choice(auth_type_idx: usize) -> (line: String)
    ensures
        line@ == choice_text(auth_type_idx),
{
    let mut line = String::from_str("Auth Type: < ");
    if auth_type_idx == 0 {
        line.append("Password");
    } else if auth_type_idx == 1 {
        line.append("Key");
    } else {
        line.append("Agent");
    }
    line.append(" >");
    line
}

/// The three shares of a length, in percent, that put a share of `percent`
/// in the middle.
pub fn centered_percentages(percent: u16) -> (shares: (u16, u16, u16))
    requires
        percent <= 100,
    ensures
        shares == (((100 - percent) / 2) as u16, percent, ((100 - percent) / 2) as u16),
{
    ((100 - percent) / 2, percent, (100 - percent) / 2)
}

/// Mathematical value of a [`DetailLine`].
pub struct DetailSpec {
    pub caption: Seq<char>,
    pub value: Seq<char>,
}

/// A line of the details: a caption and the value after it.
#[derive(Debug, Clone)]
pub struct DetailLine {
    pub caption: String,
    pub value: String,
}

impl View for DetailLine {
    type V = DetailSpec;

    open spec fn view(&self) -> DetailSpec {
        DetailSpec { caption: self.caption@, value: self.value@ }
    }
}

impl DeepView for DetailLine {
    type V = DetailSpec;

    open spec fn deep_view(&self) -> DetailSpec {
        self@
    }
}

/// The details of the profile selected; one line that says so where none
/// is selected, or where the selection is past the list.
pub open spec fn details_of(app: AppSpec) -> Seq<DetailSpec> {
    match app.selected {
        Some(i) => if i < app.servers.len() {
            let s = app.servers[i as int];
            seq![
                DetailSpec { caption: "Alias: "@, value: s.name },
                DetailSpec { caption: "Group: "@, value: s.group },
                DetailSpec { caption: ""@, value: ""@ },
                DetailSpec { caption: "Host: "@, value: s.host },
                DetailSpec { caption: "User: "@, value: s.user },
                DetailSpec { caption: "Port: "@, value: decimal_text(s.port as nat) },
                DetailSpec { caption: ""@, value: ""@ },
                DetailSpec { caption: "Auth Method: "@, value: auth_text(s.auth_type) },
            ]
        } else {
            seq![DetailSpec { caption: "No server selected"@, value: ""@ }]
        },
        None => seq![DetailSpec { caption: "Select a server"@, value: ""@ }],
    }
}

fn detail(caption: &str, value: String) -> (line: DetailLine)
    ensures
        line@ == (DetailSpec { caption: caption@, value: value@ }),
{
    DetailLine { caption: String::from_str(caption), value }
}

/// The details of the profile selected.
pub fn details(app: &App) -> (lines: Vec<DetailLine>)
    ensures
        lines.deep_view() == details_of(app@),
{
    let mut lines: Vec<DetailLine> = Vec::new();
    match app.selected {
        Some(i) => {
            if i < app.servers.len() {
                let s = &app.servers[i];
                lines.push(detail("Alias: ", s.name.clone()));
                lines.push(detail("Group: ", s.group.clone()));
                lines.push(detail("", String::from_str("")));
                lines.push(detail("Host: ", s.host.clone()));
                lines.push(detail("User: ", s.user.clone()));
                lines.push(detail("Port: ", u16_text(s.port)));
                lines.push(detail("", String::from_str("")));
                lines.push(detail("Auth Method: ", auth_label(&s.auth_type)));
                assert(app@.servers[i as int] == s@);
            } else {
                lines.push(detail("No server selected", String::from_str("")));
            }
        },
        None => {
            lines.push(detail("Select a server", String::from_str("")));
        },
    }
    assert(lines.deep_view() =~= details_of(app@));
    lines
}

/// Mathematical value of a [`FormRow`].
pub struct RowSpec {
    pub field: FormFocus,
    pub text: Seq<char>,
    pub focused: bool,
}

/// A row of the form: its field, what it shows, and whether it has the
/// focus.
#[derive(Debug, Clone)]
pub struct FormRow {
    pub field: FormFocus,
    pub text: String,
    pub focused: bool,
}

impl View for FormRow {
    type V = RowSpec;

    open spec fn view(&self) -> RowSpec {
        RowSpec { field: self.field, text: self.text@, focused: self.focused }
    }
}

impl DeepView for FormRow {
    type V = RowSpec;

    open spec fn deep_view(&self) -> RowSpec {
        self@
    }
}

/// The row of a field.
pub open spec fn row_of(app: AppSpec, field: FormFocus) -> RowSpec {
    RowSpec {
        field,
        text: match field {
            FormFocus::Group => app.group_input,
            FormFocus::Name => app.name_input,
            FormFocus::User => app.user_input,
            FormFocus::Host => app.host_input,
            FormFocus::Port => app.port_input,
            FormFocus::AuthType => choice_text(app.auth_type_idx),
            FormFocus::PasswordOrKey => app.password_key_input,
            FormFocus::Submit => "Submit"@,
        },
        focused: app.focus == Focus::Form(field),
    }
}

/// The eight rows of the form, from top to bottom.
pub open spec fn rows_of(app: AppSpec) -> Seq<RowSpec> {
    seq![
        row_of(app, FormFocus::Group),
        row_of(app, FormFocus::Name),
        row_of(app, FormFocus::User),
        row_of(app, FormFocus::Host),
        row_of(app, FormFocus::Port),
        row_of(app, FormFocus::AuthType),
        row_of(app, FormFocus::PasswordOrKey),
        row_of(app, FormFocus::Submit),
    ]
}

/// The row of a field.
pub fn form_row(app: &App, field: FormFocus) -> (row: FormRow)
    ensures
        row@ == row_of(app@, field),
{
    let text = match field {
        FormFocus::Group => app.group_input.clone(),
        FormFocus::Name => app.name_input.clone(),
        FormFocus::User => app.user_input.clone(),
        FormFocus::Host => app.host_input.clone(),
        FormFocus::Port => app.port_input.clone(),
        FormFocus::AuthType => auth_choice(app.auth_type_idx),
        FormFocus::PasswordOrKey => app.password_key_input.clone(),
        FormFocus::Submit => String::from_str("Submit"),
    };
    FormRow { field, text, focused: app.focus == Focus::Form(field) }
}

/// Mathematical value of a [`Screen`].
pub struct ScreenSpec {
    pub items: Seq<Seq<char>>,
    pub selected: Option<usize>,
    pub details: Seq<DetailSpec>,
    pub footer: Seq<char>,
    pub form: Option<Seq<RowSpec>>,
}

/// Everything the dashboard shows.
#[derive(Debug)]
pub struct Screen {
    /// The list, one line for each profile.
    pub items: Vec<String>,
    /// The line of the list that is highlighted.
    pub selected: Option<usize>,
    /// The panel beside the list.
    pub details: Vec<DetailLine>,
    /// The last line.
    pub footer: String,
    /// The form over it all, while it is open.
    pub form: Option<Vec<FormRow>>,
}

impl View for Screen {
    type V = ScreenSpec;

    open spec fn view(&self) -> ScreenSpec {
        ScreenSpec {
            items: self.items.deep_view(),
            selected: self.selected,
            details: self.details.deep_view(),
            footer: self.footer@,
            form: match self.form {
                Some(rows) => Some(rows.deep_view()),
                None => None,
            },
        }
    }
}

/// Everything the dashboard shows in a given state.
pub open spec fn screen_of(app: AppSpec) -> ScreenSpec {
    ScreenSpec {
        items: Seq::new(app.servers.len(), |i: int| item_text(app.servers[i])),
        selected: app.selected,
        details: details_of(app),
        footer: footer_text(app.input_mode),
        form: if app.show_popup {
            Some(rows_of(app))
        } else {
            None
        },
    }
}

/// Everything the dashboard shows.
pub fn ui(app: &App) -> (screen: Screen)
    ensures
        screen@ == screen_of(app@),
{
    let mut items: Vec<String> = Vec::new();
    let mut i: usize = 0;
    while i < app.servers.len()
        invariant
            i <= app.servers.len(),
            items.len() == i,
            forall|k: int| 0 <= k < i ==> (#[trigger] items[k])@ == item_text(app.servers[k]@),
        decreases app.servers.len() - i,
    {
        items.push(item_label(&app.servers[i]));
        i += 1;
    }
    let form = if app.show_popup {
        let mut rows: Vec<FormRow> = Vec::new();
        rows.push(form_row(app, FormFocus::Group));
        rows.push(form_row(app, FormFocus::Name));
        rows.push(form_row(app, FormFocus::User));
        rows.push(form_row(app, FormFocus::Host));
        rows.push(form_row(app, FormFocus::Port));
        rows.push(form_row(app, FormFocus::AuthType));
        rows.push(form_row(app, FormFocus::PasswordOrKey));
        rows.push(form_row(app, FormFocus::Submit));
        assert(rows.deep_view() =~= rows_of(app@));
        Some(rows)
    } else {
        None
    };
    let screen = Screen {
        items,
        selected: app.selected,
        details: details(app),
        footer: footer_hint(app.input_mode),
        form,
    };
    assert(screen@.items =~= screen_of(app@).items);
    screen
}

} // verus!
