use mushroom_password_manager::ui::app::{Message, PasswordManagerApp, View};
use mushroom_password_manager::ui::scene::{Emphasis, Field, Length, Node};
use mushroom_password_manager::ui::style::Rgb;

fn text(s: &str) -> String {
    s.to_string()
}

fn caption(content: &str, size: u16) -> Node {
    Node::Text { content: text(content), size: Some(size), color: None }
}

fn entry(placeholder: &str, value: &str, field: Field, secure: bool) -> Node {
    Node::Input {
        placeholder: text(placeholder),
        value: text(value),
        field,
        padding: Some(10),
        width: Length::Fill,
        secure,
    }
}

fn action(label: &str, on_press: Message) -> Node {
    Node::Button {
        label: text(label),
        label_size: None,
        on_press,
        padding: Some(10),
        width: Length::Shrink,
        emphasis: None,
    }
}

fn stack(spacing: u16, children: Vec<Node>) -> Node {
    Node::Column { spacing, padding: None, max_width: None, width: Length::Shrink, children }
}

fn line(spacing: u16, children: Vec<Node>) -> Node {
    Node::Row { spacing, padding: None, children }
}

fn page(content: Node, center_y: bool) -> Node {
    Node::Container {
        child: Box::new(content),
        width: Length::Fill,
        height: Length::Fill,
        center_x: true,
        center_y,
    }
}

fn service(name: &str, selected: bool) -> Node {
    Node::Button {
        label: text(name),
        label_size: Some(if selected { 18 } else { 16 }),
        on_press: Message::ServiceSelected(text(name)),
        padding: None,
        width: Length::Fill,
        emphasis: Some(if selected { Emphasis::Primary } else { Emphasis::Secondary }),
    }
}

fn unlocked() -> PasswordManagerApp {
    let mut app = PasswordManagerApp::new();
    app.update(Message::MasterPasswordInputChanged(text("mushroom123")));
    app.update(Message::LoginAttempt);
    app
}

/// The events that the buttons of a screen send, and the fields of its inputs.
fn controls(node: &Node, events: &mut Vec<Message>, fields: &mut Vec<Field>) {
    match node {
        Node::Text { .. } => {}
        Node::Input { field, .. } => fields.push(*field),
        Node::Button { on_press, .. } => events.push(on_press.clone()),
        Node::Column { children, .. } | Node::Row { children, .. } => {
            for child in children {
                controls(child, events, fields);
            }
        }
        Node::Scrollable(inner) => controls(inner, events, fields),
        Node::Container { child, .. } => controls(child, events, fields),
    }
}

#[test]
fn a_field_reports_typing_by_its_own_event() {
    assert_eq!(Field::MasterPassword.message(text("x")), Message::MasterPasswordInputChanged(text("x")));
    assert_eq!(Field::Password.message(text("x")), Message::InputChanged(text("x")));
    assert_eq!(Field::ServiceUrl.message(text("x")), Message::ServiceUrlChanged(text("x")));
    assert_eq!(Field::Email.message(text("x")), Message::EmailInputChanged(text("x")));
}

#[test]
fn the_login_screen() {
    let mut app = PasswordManagerApp::new();
    app.update(Message::MasterPasswordInputChanged(text("guess")));
    app.update(Message::LoginAttempt);
    let expected = page(
        Node::Column {
            spacing: 20,
            padding: Some(20),
            max_width: Some(400),
            width: Length::Shrink,
            children: vec![
                caption("Gestionnaire de mots de passe Mushroom", 30),
                caption("Veuillez entrer votre mot de passe maître pour accéder à vos mots de passe", 16),
                entry("Mot de passe maître", "guess", Field::MasterPassword, true),
                Node::Button {
                    label: text("Se connecter"),
                    label_size: None,
                    on_press: Message::LoginAttempt,
                    padding: Some(10),
                    width: Length::Fill,
                    emphasis: None,
                },
                caption("Mot de passe incorrect", 16),
            ],
        },
        true,
    );
    assert_eq!(app.view_login(), expected);
    assert_eq!(app.scene(), expected);
}

#[test]
fn the_status_line_is_empty_at_the_start() {
    let app = PasswordManagerApp::new();
    match app.scene() {
        Node::Container { child, .. } => match *child {
            Node::Column { children, .. } => assert_eq!(children[4], caption("", 16)),
            other => panic!("{:?}", other),
        },
        other => panic!("{:?}", other),
    }
}

fn main_screen(password: &str, warning: bool, services: Vec<Node>, status: &str) -> Node {
    let mut password_section = vec![caption("Mot de passe", 16), entry("Mot de passe", password, Field::Password, false)];
    if warning {
        password_section.push(Node::Text {
            content: text("Mot de passe trop court "),
            size: Some(14),
            color: Some(Rgb { red: 90, green: 20, blue: 20 }),
        });
    }
    page(
        Node::Row {
            spacing: 40,
            padding: Some(20),
            children: vec![
                Node::Column {
                    spacing: 20,
                    padding: None,
                    max_width: None,
                    width: Length::FillPortion(3),
                    children: vec![
                        stack(
                            20,
                            vec![
                                caption("Ajouter un nouveau mot de passe", 20),
                                stack(
                                    0,
                                    vec![
                                        caption("URL du service", 16),
                                        entry(
                                            "URL du service (ex: www.exemple.com)",
                                            "https://a.example",
                                            Field::ServiceUrl,
                                            false,
                                        ),
                                    ],
                                ),
                                stack(0, password_section),
                                stack(
                                    0,
                                    vec![caption("Email", 16), entry("Email", "me@example.com", Field::Email, false)],
                                ),
                                line(
                                    10,
                                    vec![
                                        action("Générer", Message::GeneratePassword),
                                        action("Copier", Message::CopyToClipboard),
                                        action("Sauvegarder", Message::SavePassword),
                                    ],
                                ),
                            ],
                        ),
                        caption(status, 16),
                    ],
                },
                Node::Column {
                    spacing: 20,
                    padding: None,
                    max_width: None,
                    width: Length::FillPortion(2),
                    children: vec![
                        caption("Mots de passe enregistrés", 20),
                        action("Actualiser", Message::RefreshPasswords),
                        Node::Container {
                            child: Box::new(Node::Scrollable(Box::new(stack(10, services)))),
                            width: Length::Shrink,
                            height: Length::Fill,
                            center_x: false,
                            center_y: false,
                        },
                    ],
                },
            ],
        },
        true,
    )
}

#[test]
fn the_main_screen() {
    let mut app = unlocked();
    app.update(Message::ServiceUrlChanged(text("https://a.example")));
    app.update(Message::EmailInputChanged(text("me@example.com")));
    app.update(Message::InputChanged(text("long enough")));
    app.update(Message::PasswordsUpdated(vec![text("a.example"), text("b.example")]));
    let expected = main_screen(
        "long enough",
        false,
        vec![service("a.example", false), service("b.example", false)],
        "Connexion réussie",
    );
    assert_eq!(app.view_main(), expected);
    assert_eq!(app.scene(), expected);
}

#[test]
fn the_main_screen_marks_the_selected_service_and_warns_of_a_short_password() {
    let mut app = unlocked();
    app.update(Message::ServiceUrlChanged(text("https://a.example")));
    app.update(Message::EmailInputChanged(text("me@example.com")));
    app.update(Message::InputChanged(text("abc")));
    app.update(Message::PasswordsUpdated(vec![text("a.example"), text("b.example"), text("b.example")]));
    app.update(Message::PasswordSelected(text("b.example")));
    let expected = main_screen(
        "abc",
        true,
        vec![service("a.example", false), service("b.example", true), service("b.example", true)],
        "Connexion réussie",
    );
    assert_eq!(app.view_main(), expected);
}

#[test]
fn the_main_screen_without_services() {
    let mut app = unlocked();
    app.update(Message::ServiceUrlChanged(text("https://a.example")));
    app.update(Message::EmailInputChanged(text("me@example.com")));
    app.update(Message::StatusUpdate(text("fine")));
    assert_eq!(app.view_main(), main_screen("", false, Vec::new(), "fine"));
}

#[test]
fn the_detail_screen() {
    let mut app = unlocked();
    app.update(Message::ServiceSelected(text("a.example")));
    app.update(Message::PasswordDetailsReceived(text("https://a.example"), text("pw"), text("me@example.com")));
    let expected = page(
        Node::Column {
            spacing: 30,
            padding: Some(20),
            max_width: None,
            width: Length::Shrink,
            children: vec![
                stack(
                    10,
                    vec![line(
                        20,
                        vec![
                            Node::Button {
                                label: text("< Retour"),
                                label_size: None,
                                on_press: Message::BackToMain,
                                padding: None,
                                width: Length::Shrink,
                                emphasis: None,
                            },
                            caption("Détails du service: a.example", 24),
                        ],
                    )],
                ),
                stack(
                    20,
                    vec![
                        stack(0, vec![caption("Mot de passe", 16), entry("Mot de passe", "pw", Field::Password, false)]),
                        stack(0, vec![caption("Email", 16), entry("Email", "me@example.com", Field::Email, false)]),
                    ],
                ),
                line(
                    10,
                    vec![
                        action("Générer nouveau mot de passe", Message::GeneratePassword),
                        action("Copier", Message::CopyToClipboard),
                        action("Mettre à jour", Message::UpdatePassword),
                    ],
                ),
                caption("Informations du service chargées", 16),
            ],
        },
        false,
    );
    assert_eq!(app.view_service_detail(), expected);
    assert_eq!(app.scene(), expected);
}

#[test]
fn the_screen_shown_goes_by_the_current_view() {
    let mut app = unlocked();
    for view in [View::Login, View::Main, View::ServiceDetail] {
        app.update(Message::NavigateTo(view));
        let expected = match view {
            View::Login => app.view_login(),
            View::Main => app.view_main(),
            View::ServiceDetail => app.view_service_detail(),
        };
        assert_eq!(app.scene(), expected);
    }
}

#[test]
fn the_login_screen_sends_login_events_only() {
    let mut app = PasswordManagerApp::new();
    app.update(Message::MasterPasswordInputChanged(text("guess")));
    let (mut events, mut fields) = (Vec::new(), Vec::new());
    controls(&app.scene(), &mut events, &mut fields);
    assert_eq!(events, vec![Message::LoginAttempt]);
    assert_eq!(fields, vec![Field::MasterPassword]);
}

#[test]
fn every_listed_service_has_a_button_that_selects_it() {
    let mut app = unlocked();
    let names = vec![text("a.example"), text("b.example"), text("")];
    app.update(Message::PasswordsUpdated(names.clone()));
    let (mut events, mut fields) = (Vec::new(), Vec::new());
    controls(&app.scene(), &mut events, &mut fields);
    for name in names {
        assert!(events.contains(&Message::ServiceSelected(name)));
    }
    assert_eq!(fields, vec![Field::ServiceUrl, Field::Password, Field::Email]);
}
