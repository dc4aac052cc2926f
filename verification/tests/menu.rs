use ssh_manager::menu::{
    add_server_prompt, credential_prompt, file_transfer_menu, main_menu, select_server,
    server_label, server_labels, Action, CredentialPrompt,
};
use ssh_manager::profile::{AuthType, Server};
use ssh_manager::transfer::TransferDirection;

fn server(name: &str, port: u16) -> Server {
    Server {
        name: name.to_string(),
        user: "ops".to_string(),
        host: "example.org".to_string(),
        port,
        auth_type: AuthType::Agent,
        group: "Prod".to_string(),
    }
}

#[test]
fn main_menu_maps_positions_to_actions() {
    assert_eq!(main_menu(Some(0)), Action::Connect);
    assert_eq!(main_menu(Some(1)), Action::AddServer);
    assert_eq!(main_menu(Some(2)), Action::RemoveServer);
    assert_eq!(main_menu(Some(3)), Action::ListServers);
    assert_eq!(main_menu(Some(4)), Action::ImportConfig);
    assert_eq!(main_menu(Some(5)), Action::FileTransfer);
    assert_eq!(main_menu(Some(6)), Action::Exit);
    assert_eq!(main_menu(Some(7)), Action::Exit);
    assert_eq!(main_menu(Some(usize::MAX)), Action::Exit);
    assert_eq!(main_menu(None), Action::Exit);
}

#[test]
fn transfer_menu_uploads_first() {
    assert_eq!(file_transfer_menu(0), TransferDirection::Upload);
    assert_eq!(file_transfer_menu(1), TransferDirection::Download);
    assert_eq!(file_transfer_menu(9), TransferDirection::Download);
}

#[test]
fn credential_prompt_follows_the_method() {
    assert_eq!(credential_prompt(0), CredentialPrompt::Password);
    assert_eq!(credential_prompt(1), CredentialPrompt::KeyPath);
    assert_eq!(credential_prompt(2), CredentialPrompt::Nothing);
    assert_eq!(credential_prompt(3), CredentialPrompt::Nothing);
}

#[test]
fn prompt_answers_become_a_profile() {
    let s = |t: &str| t.to_string();
    let built = add_server_prompt(s("G"), s("n"), s("u"), s("h"), 2222, 0, s("pw"));
    assert_eq!(
        built,
        Server {
            name: s("n"),
            user: s("u"),
            host: s("h"),
            port: 2222,
            auth_type: AuthType::Password(s("pw")),
            group: s("G"),
        }
    );
    let built = add_server_prompt(s("G"), s("n"), s("u"), s("h"), 22, 1, s("~/.ssh/id_rsa"));
    assert_eq!(built.auth_type, AuthType::Key(s("~/.ssh/id_rsa")));
    let built = add_server_prompt(s("G"), s("n"), s("u"), s("h"), 22, 2, s("unused"));
    assert_eq!(built.auth_type, AuthType::Agent);
    let built = add_server_prompt(s("G"), s("n"), s("u"), s("h"), 22, 17, s("unused"));
    assert_eq!(built.auth_type, AuthType::Agent);
}

#[test]
fn label_shows_group_name_user_host_and_port() {
    assert_eq!(server_label(&server("db1", 5432)), "[Prod] db1 (ops@example.org:5432)");
    assert_eq!(server_label(&server("", 0)), "[Prod]  (ops@example.org:0)");
    assert_eq!(server_label(&server("x", 65535)), "[Prod] x (ops@example.org:65535)");
    assert_eq!(server_label(&server("x", 10)), "[Prod] x (ops@example.org:10)");
    assert_eq!(
        server_labels(&vec![server("a", 1), server("b", 22)]),
        vec!["[Prod] a (ops@example.org:1)", "[Prod] b (ops@example.org:22)"]
    );
    assert!(server_labels(&Vec::new()).is_empty());
}

#[test]
fn selection_is_none_without_profiles_or_answer() {
    let two = vec![server("a", 1), server("b", 2)];
    assert_eq!(select_server(&Vec::new(), Some(0)), None);
    assert_eq!(select_server(&Vec::new(), None), None);
    assert_eq!(select_server(&two, None), None);
    assert_eq!(select_server(&two, Some(0)), Some(0));
    assert_eq!(select_server(&two, Some(1)), Some(1));
    assert_eq!(select_server(&two, Some(2)), None);
}
