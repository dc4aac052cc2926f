use ssh_manager::dashboard::{App, FormFocus, InputMode};
use ssh_manager::profile::{AuthType, Server};
use ssh_manager::render::{
    auth_choice, auth_label, centered_percentages, details, footer_hint, item_label, ui,
};

fn server(name: &str, auth_type: AuthType) -> Server {
    Server {
        name: name.to_string(),
        user: "u".to_string(),
        host: "h.example.org".to_string(),
        port: 2022,
        auth_type,
        group: "Lab".to_string(),
    }
}

fn pairs(app: &App) -> Vec<(String, String)> {
    details(app).into_iter().map(|line| (line.caption, line.value)).collect()
}

#[test]
fn list_items_show_name_and_group() {
    assert_eq!(item_label(&server("db1", AuthType::Agent)), "db1 [Lab]");
}

#[test]
fn auth_labels_hide_the_secret() {
    assert_eq!(auth_label(&AuthType::Password("hunter2".to_string())), "Password");
    assert_eq!(auth_label(&AuthType::Key("/k".to_string())), "SSH Key");
    assert_eq!(auth_label(&AuthType::Agent), "SSH Agent");
}

#[test]
fn footer_depends_on_the_mode() {
    assert_eq!(
        footer_hint(InputMode::Normal),
        "q: Quit | a: Add | Enter: Connect | t: SFTP | j/k: Nav"
    );
    assert_eq!(footer_hint(InputMode::Editing), "Esc: Cancel | Tab: Next Field | Enter: Submit");
}

#[test]
fn auth_choice_names_the_method() {
    assert_eq!(auth_choice(0), "Auth Type: < Password >");
    assert_eq!(auth_choice(1), "Auth Type: < Key >");
    assert_eq!(auth_choice(2), "Auth Type: < Agent >");
    assert_eq!(auth_choice(3), "Auth Type: < Agent >");
}

#[test]
fn popup_is_centred() {
    assert_eq!(centered_percentages(60), (20, 60, 20));
    assert_eq!(centered_percentages(100), (0, 100, 0));
    assert_eq!(centered_percentages(0), (50, 0, 50));
    assert_eq!(centered_percentages(55), (22, 55, 22));
}

#[test]
fn details_of_the_selected_profile() {
    let app = App::new(vec![
        server("db1", AuthType::Password("p".to_string())),
        server("db2", AuthType::Agent),
    ]);
    let s = |t: &str| t.to_string();
    assert_eq!(
        pairs(&app),
        vec![
            (s("Alias: "), s("db1")),
            (s("Group: "), s("Lab")),
            (s(""), s("")),
            (s("Host: "), s("h.example.org")),
            (s("User: "), s("u")),
            (s("Port: "), s("2022")),
            (s(""), s("")),
            (s("Auth Method: "), s("Password")),
        ]
    );
}

#[test]
fn details_without_a_selection() {
    let mut app = App::new(vec![server("db1", AuthType::Agent)]);
    app.selected = None;
    assert_eq!(pairs(&app), vec![("Select a server".to_string(), String::new())]);
    app.selected = Some(1);
    assert_eq!(pairs(&app), vec![("No server selected".to_string(), String::new())]);
}

#[test]
fn screen_of_the_list() {
    let mut app = App::new(vec![server("a", AuthType::Agent), server("b", AuthType::Agent)]);
    app.next();
    let screen = ui(&app);
    assert_eq!(screen.items, vec!["a [Lab]", "b [Lab]"]);
    assert_eq!(screen.selected, Some(1));
    assert_eq!(screen.details[0].value, "b");
    assert_eq!(screen.footer, "q: Quit | a: Add | Enter: Connect | t: SFTP | j/k: Nav");
    assert!(screen.form.is_none());
}

#[test]
fn screen_with_the_form_open() {
    let mut app = App::new(Vec::new());
    app.open_add_server_popup();
    app.next_form_field();
    app.set_input(FormFocus::Name, "web".to_string());
    let screen = ui(&app);
    assert!(screen.items.is_empty());
    assert_eq!(screen.footer, "Esc: Cancel | Tab: Next Field | Enter: Submit");
    let rows = screen.form.unwrap();
    let shown: Vec<(FormFocus, &str, bool)> =
        rows.iter().map(|row| (row.field, row.text.as_str(), row.focused)).collect();
    assert_eq!(
        shown,
        vec![
            (FormFocus::Group, "General", false),
            (FormFocus::Name, "web", true),
            (FormFocus::User, "", false),
            (FormFocus::Host, "", false),
            (FormFocus::Port, "22", false),
            (FormFocus::AuthType, "Auth Type: < Password >", false),
            (FormFocus::PasswordOrKey, "", false),
            (FormFocus::Submit, "Submit", false),
        ]
    );
}
