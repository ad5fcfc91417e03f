//! The three screens of the application, each as a function of the state.

use crate::ui::app::{
    app_title, detail_heading, is_login_event, locked, status_of, too_short, AppModel, Message,
    MessageModel, PasswordManagerApp,
};
use crate::ui::scene::{
    lemma_models_of, models_of, offers, Emphasis, Field, Length, Node, NodeModel,
};
use crate::ui::style::Rgb;
use vstd::prelude::*;

verus! {

/// A line of text of the given size.
pub open spec fn caption(content: Seq<char>, size: u16) -> NodeModel {
    NodeModel::Text { content, size: Some(size), color: None }
}

/// A line to type into, as wide as there is room.
pub open spec fn entry(placeholder: Seq<char>, value: Seq<char>, field: Field, secure: bool)
    -> NodeModel {
    NodeModel::Input { placeholder, value, field, padding: Some(10), width: Length::Fill, secure }
}

/// A padded button with a plain label.
pub open spec fn action(label: Seq<char>, on_press: MessageModel) -> NodeModel {
    NodeModel::Button {
        label,
        label_size: None,
        on_press,
        padding: Some(10),
        width: Length::Shrink,
        emphasis: None,
    }
}

/// Widgets one below the other, `spacing` apart.
pub open spec fn stack(spacing: u16, children: Seq<NodeModel>) -> NodeModel {
    NodeModel::Column { spacing, padding: None, max_width: None, width: Length::Shrink, children }
}

/// Widgets side by side, `spacing` apart.
pub open spec fn line(spacing: u16, children: Seq<NodeModel>) -> NodeModel {
    NodeModel::Row { spacing, padding: None, children }
}

/// A widget under its name.
pub open spec fn labelled(name: Seq<char>, widget: NodeModel) -> NodeModel {
    stack(0, seq![caption(name, 16), widget])
}

/// A box that fills the window and centres its content across, and down too where
/// `center_y` says so.
pub open spec fn page(content: NodeModel, center_y: bool) -> NodeModel {
    NodeModel::Container {
        child: Box::new(content),
        width: Length::Fill,
        height: Length::Fill,
        center_x: true,
        center_y,
    }
}

/// The status line: the last status message, or an empty line.
pub open spec fn status_line(s: AppModel) -> NodeModel {
    caption(status_of(s), 16)
}

/// The login screen: the title, a hint, the hidden passphrase, the login button and
/// the status line.
pub open spec fn login_scene(s: AppModel) -> NodeModel {
    page(
        NodeModel::Column {
            spacing: 20,
            padding: Some(20),
            max_width: Some(400),
            width: Length::Shrink,
            children: login_items(s),
        },
        true,
    )
}

/// The widgets of the login screen, from the top down.
pub open spec fn login_items(s: AppModel) -> Seq<NodeModel> {
    seq![
        caption(app_title(), 30),
        caption(
            "Veuillez entrer votre mot de passe maître pour accéder à vos mots de passe"@,
            16,
        ),
        entry("Mot de passe maître"@, s.master_password, Field::MasterPassword, true),
        NodeModel::Button {
            label: "Se connecter"@,
            label_size: None,
            on_press: MessageModel::LoginAttempt,
            padding: Some(10),
            width: Length::Fill,
            emphasis: None,
        },
        status_line(s),
    ]
}

/// The button of one listed service: it selects the service, and stands out where the
/// service is the selected one.
pub open spec fn service_button(name: Seq<char>, selected: Option<Seq<char>>) -> NodeModel {
    NodeModel::Button {
        label: name,
        label_size: Some(
            if selected == Some(name) {
                18u16
            } else {
                16u16
            },
        ),
        on_press: MessageModel::ServiceSelected(name),
        padding: None,
        width: Length::Fill,
        emphasis: Some(
            if selected == Some(name) {
                Emphasis::Primary
            } else {
                Emphasis::Secondary
            },
        ),
    }
}

/// The buttons of all listed services, in the order of the list.
pub open spec fn service_buttons(s: AppModel) -> Seq<NodeModel> {
    Seq::new(s.passwords.len(), |i: int| service_button(s.passwords[i], s.selected_password))
}

/// The warning under a password that is too short, in red.
pub open spec fn short_password_warning() -> NodeModel {
    NodeModel::Text {
        content: "Mot de passe trop court "@,
        size: Some(14),
        color: Some(Rgb { red: 90, green: 20, blue: 20 }),
    }
}

/// The password field under its name, with the warning where the password is too
/// short.
pub open spec fn password_section(s: AppModel) -> NodeModel {
    stack(0, password_items(s))
}

/// The widgets of the password section, from the top down.
pub open spec fn password_items(s: AppModel) -> Seq<NodeModel> {
    let field = seq![
        caption("Mot de passe"@, 16),
        entry("Mot de passe"@, s.password_value, Field::Password, false),
    ];
    if too_short(s.password_value) {
        field.push(short_password_warning())
    } else {
        field
    }
}

/// The form of the main screen: the three fields and the three buttons.
pub open spec fn main_form(s: AppModel) -> NodeModel {
    stack(20, main_form_items(s))
}

/// The widgets of the main screen's form, from the top down.
pub open spec fn main_form_items(s: AppModel) -> Seq<NodeModel> {
    seq![
        caption("Ajouter un nouveau mot de passe"@, 20),
        labelled(
            "URL du service"@,
            entry(
                "URL du service (ex: www.exemple.com)"@,
                s.service_url_value,
                Field::ServiceUrl,
                false,
            ),
        ),
        password_section(s),
        labelled("Email"@, entry("Email"@, s.email_value, Field::Email, false)),
        line(
            10,
            seq![
                action("Générer"@, MessageModel::GeneratePassword),
                action("Copier"@, MessageModel::CopyToClipboard),
                action("Sauvegarder"@, MessageModel::SavePassword),
            ],
        ),
    ]
}

/// The right-hand side of the main screen: the listed services under a heading and a
/// button that lists them again.
pub open spec fn saved_section(s: AppModel) -> NodeModel {
    NodeModel::Column {
        spacing: 20,
        padding: None,
        max_width: None,
        width: Length::FillPortion(2),
        children: saved_items(s),
    }
}

/// The widgets of the main screen's right-hand side, from the top down.
pub open spec fn saved_items(s: AppModel) -> Seq<NodeModel> {
    seq![
        caption("Mots de passe enregistrés"@, 20),
        action("Actualiser"@, MessageModel::RefreshPasswords),
        NodeModel::Container {
            child: Box::new(NodeModel::Scrollable(Box::new(stack(10, service_buttons(s))))),
            width: Length::Shrink,
            height: Length::Fill,
            center_x: false,
            center_y: false,
        },
    ]
}

/// The main screen: the form over the status line, beside the listed services.
pub open spec fn main_scene(s: AppModel) -> NodeModel {
    page(NodeModel::Row { spacing: 40, padding: Some(20), children: main_sides(s) }, true)
}

/// The two sides of the main screen, from left to right.
pub open spec fn main_sides(s: AppModel) -> Seq<NodeModel> {
    seq![
        NodeModel::Column {
            spacing: 20,
            padding: None,
            max_width: None,
            width: Length::FillPortion(3),
            children: seq![main_form(s), status_line(s)],
        },
        saved_section(s),
    ]
}

/// The detail screen: the way back and the heading, the password and the email of
/// the service, three buttons and the status line.
pub open spec fn detail_scene(s: AppModel) -> NodeModel {
    page(
        NodeModel::Column {
            spacing: 30,
            padding: Some(20),
            max_width: None,
            width: Length::Shrink,
            children: detail_items(s),
        },
        false,
    )
}

/// The button that leads back to the main screen.
pub open spec fn back_button() -> NodeModel {
    NodeModel::Button {
        label: "< Retour"@,
        label_size: None,
        on_press: MessageModel::BackToMain,
        padding: None,
        width: Length::Shrink,
        emphasis: None,
    }
}

/// The widgets of the detail screen, from the top down.
pub open spec fn detail_items(s: AppModel) -> Seq<NodeModel> {
    seq![
        stack(10, seq![line(20, seq![back_button(), caption(detail_heading(s), 24)])]),
        stack(
            20,
            seq![
                labelled(
                    "Mot de passe"@,
                    entry("Mot de passe"@, s.password_value, Field::Password, false),
                ),
                labelled("Email"@, entry("Email"@, s.email_value, Field::Email, false)),
            ],
        ),
        line(
            10,
            seq![
                action("Générer nouveau mot de passe"@, MessageModel::GeneratePassword),
                action("Copier"@, MessageModel::CopyToClipboard),
                action("Mettre à jour"@, MessageModel::UpdatePassword),
            ],
        ),
        status_line(s),
    ]
}

/// What the application shows in the state `s`.
pub open spec fn scene(s: AppModel) -> NodeModel {
    match s.current_view {
        crate::ui::app::View::Login => login_scene(s),
        crate::ui::app::View::Main => main_scene(s),
        crate::ui::app::View::ServiceDetail => detail_scene(s),
    }
}

/// The login screen can send the two login events and no other.
pub proof fn law_login_scene_offers_login_events_only(s: AppModel, m: MessageModel)
    requires
        offers(login_scene(s), m),
    ensures
        is_login_event(m),
{
    reveal_with_fuel(offers, 3);
}

/// What a locked application shows can send no event that it would ignore.
pub proof fn law_locked_scene_offers_no_ignored_event(s: AppModel, m: MessageModel)
    requires
        locked(s),
        offers(scene(s), m),
    ensures
        is_login_event(m),
{
    law_login_scene_offers_login_events_only(s, m);
}

/// A column or a row can send what one of its widgets can send.
proof fn lemma_offered_by_child(node: NodeModel, children: Seq<NodeModel>, at: int, m: MessageModel)
    requires
        (node matches NodeModel::Column { children: held, .. } && held == children) || (
        node matches NodeModel::Row { children: held, .. } && held == children),
        0 <= at < children.len(),
        offers(children[at], m),
    ensures
        offers(node, m),
{
    reveal_with_fuel(offers, 2);
}

/// The main screen holds, for every listed service, a button that selects it.
pub proof fn law_listed_services_can_be_selected(s: AppModel, i: int)
    requires
        0 <= i < s.passwords.len(),
    ensures
        offers(main_scene(s), MessageModel::ServiceSelected(s.passwords[i])),
{
    reveal_with_fuel(offers, 3);
    let m = MessageModel::ServiceSelected(s.passwords[i]);
    let list = stack(10, service_buttons(s));
    lemma_offered_by_child(list, service_buttons(s), i, m);
    lemma_offered_by_child(saved_section(s), saved_items(s), 2, m);
    let sides = NodeModel::Row { spacing: 40, padding: Some(20), children: main_sides(s) };
    lemma_offered_by_child(sides, main_sides(s), 1, m);
}

fn make_caption(content: String, size: u16) -> (node: Node)
    ensures
        node@ == caption(content@, size),
{
    Node::Text { content, size: Some(size), color: None }
}

fn make_entry(placeholder: &str, value: &String, field: Field, secure: bool) -> (node: Node)
    ensures
        node@ == entry(placeholder@, value@, field, secure),
{
    Node::Input {
        placeholder: String::from_str(placeholder),
        value: value.clone(),
        field,
        padding: Some(10),
        width: Length::Fill,
        secure,
    }
}

fn make_action(label: &str, on_press: Message) -> (node: Node)
    ensures
        node@ == action(label@, on_press@),
{
    Node::Button {
        label: String::from_str(label),
        label_size: None,
        on_press,
        padding: Some(10),
        width: Length::Shrink,
        emphasis: None,
    }
}

fn make_column(
    spacing: u16,
    padding: Option<u16>,
    max_width: Option<u16>,
    width: Length,
    children: Vec<Node>,
) -> (node: Node)
    ensures
        node@ == (NodeModel::Column {
            spacing,
            padding,
            max_width,
            width,
            children: models_of(children@),
        }),
{
    Node::Column { spacing, padding, max_width, width, children }
}

fn make_row(spacing: u16, padding: Option<u16>, children: Vec<Node>) -> (node: Node)
    ensures
        node@ == (NodeModel::Row { spacing, padding, children: models_of(children@) }),
{
    Node::Row { spacing, padding, children }
}

fn make_labelled(name: &str, widget: Node) -> (node: Node)
    ensures
        node@ == labelled(name@, widget@),
{
    let mut children: Vec<Node> = Vec::new();
    children.push(make_caption(String::from_str(name), 16));
    children.push(widget);
    proof {
        lemma_models_of(children@);
    }
    assert(models_of(children@) =~= seq![caption(name@, 16), widget@]);
    make_column(0, None, None, Length::Shrink, children)
}

fn make_page(content: Node, center_y: bool) -> (node: Node)
    ensures
        node@ == page(content@, center_y),
{
    Node::Container {
        child: Box::new(content),
        width: Length::Fill,
        height: Length::Fill,
        center_x: true,
        center_y,
    }
}

impl PasswordManagerApp {
    /// What the application shows.
    pub fn scene(&self) -> (node: Node)
        ensures
            node@ == scene(self@),
    {
        match self.current_view {
            crate::ui::app::View::Login => self.view_login(),
            crate::ui::app::View::Main => self.view_main(),
            crate::ui::app::View::ServiceDetail => self.view_service_detail(),
        }
    }

    fn status_node(&self) -> (node: Node)
        ensures
            node@ == status_line(self@),
    {
        make_caption(self.status_text(), 16)
    }

    /// The login screen.
    pub fn view_login(&self) -> (node: Node)
        ensures
            node@ == login_scene(self@),
    {
        let mut children: Vec<Node> = Vec::new();
        children.push(make_caption(self.title(), 30));
        children.push(
            make_caption(
                String::from_str(
                    "Veuillez entrer votre mot de passe maître pour accéder à vos mots de passe",
                ),
                16,
            ),
        );
        children.push(
            make_entry("Mot de passe maître", &self.master_password, Field::MasterPassword, true),
        );
        children.push(
            Node::Button {
                label: String::from_str("Se connecter"),
                label_size: None,
                on_press: Message::LoginAttempt,
                padding: Some(10),
                width: Length::Fill,
                emphasis: None,
            },
        );
        children.push(self.status_node());
        proof {
            lemma_models_of(children@);
        }
        assert(models_of(children@) =~= login_items(self@));
        make_page(make_column(20, Some(20), Some(400), Length::Shrink, children), true)
    }

    /// The button of the listed service `name`.
    fn service_node(&self, name: &String) -> (node: Node)
        ensures
            node@ == service_button(name@, self@.selected_password),
    {
        let selected = self.is_selected(name.as_str());
        Node::Button {
            label: name.clone(),
            label_size: Some(
                if selected {
                    18
                } else {
                    16
                },
            ),
            on_press: Message::ServiceSelected(name.clone()),
            padding: None,
            width: Length::Fill,
            emphasis: Some(
                if selected {
                    Emphasis::Primary
                } else {
                    Emphasis::Secondary
                },
            ),
        }
    }

    /// The buttons of the listed services.
    fn service_nodes(&self) -> (nodes: Vec<Node>)
        ensures
            models_of(nodes@) == service_buttons(self@),
    {
        let mut nodes: Vec<Node> = Vec::new();
        let mut i: usize = 0;
        while i < self.passwords.len()
            invariant
                i <= self.passwords.len(),
                nodes@.len() == i,
                forall|j: int|
                    0 <= j < i ==> (#[trigger] nodes@[j])@ == service_button(
                        self.passwords@[j]@,
                        self@.selected_password,
                    ),
            decreases self.passwords.len() - i,
        {
            nodes.push(self.service_node(&self.passwords[i]));
            i += 1;
        }
        proof {
            lemma_models_of(nodes@);
        }
        nodes
    }

    fn password_node(&self) -> (node: Node)
        ensures
            node@ == password_section(self@),
    {
        let mut children: Vec<Node> = Vec::new();
        children.push(make_caption(String::from_str("Mot de passe"), 16));
        children.push(make_entry("Mot de passe", &self.password_value, Field::Password, false));
        if self.password_too_short() {
            children.push(
                Node::Text {
                    content: String::from_str("Mot de passe trop court "),
                    size: Some(14),
                    color: Some(Rgb { red: 90, green: 20, blue: 20 }),
                },
            );
        }
        proof {
            lemma_models_of(children@);
        }
        assert(models_of(children@) =~= password_items(self@));
        make_column(0, None, None, Length::Shrink, children)
    }

    fn main_form_node(&self) -> (node: Node)
        ensures
            node@ == main_form(self@),
    {
        let mut buttons: Vec<Node> = Vec::new();
        buttons.push(make_action("Générer", Message::GeneratePassword));
        buttons.push(make_action("Copier", Message::CopyToClipboard));
        buttons.push(make_action("Sauvegarder", Message::SavePassword));
        proof {
            lemma_models_of(buttons@);
        }
        assert(models_of(buttons@) =~= seq![
            action("Générer"@, MessageModel::GeneratePassword),
            action("Copier"@, MessageModel::CopyToClipboard),
            action("Sauvegarder"@, MessageModel::SavePassword),
        ]);
        let mut children: Vec<Node> = Vec::new();
        children.push(make_caption(String::from_str("Ajouter un nouveau mot de passe"), 20));
        children.push(
            make_labelled(
                "URL du service",
                make_entry(
                    "URL du service (ex: www.exemple.com)",
                    &self.service_url_value,
                    Field::ServiceUrl,
                    false,
                ),
            ),
        );
        children.push(self.password_node());
        children.push(
            make_labelled("Email", make_entry("Email", &self.email_value, Field::Email, false)),
        );
        children.push(make_row(10, None, buttons));
        proof {
            lemma_models_of(children@);
        }
        assert(models_of(children@) =~= main_form_items(self@));
        make_column(20, None, None, Length::Shrink, children)
    }

    fn saved_node(&self) -> (node: Node)
        ensures
            node@ == saved_section(self@),
    {
        let list = make_column(10, None, None, Length::Shrink, self.service_nodes());
        let mut children: Vec<Node> = Vec::new();
        children.push(make_caption(String::from_str("Mots de passe enregistrés"), 20));
        children.push(make_action("Actualiser", Message::RefreshPasswords));
        let scrolling = Node::Scrollable(Box::new(list));
        assert(scrolling@ == NodeModel::Scrollable(Box::new(stack(10, service_buttons(self@)))));
        children.push(
            Node::Container {
                child: Box::new(scrolling),
                width: Length::Shrink,
                height: Length::Fill,
                center_x: false,
                center_y: false,
            },
        );
        proof {
            lemma_models_of(children@);
        }
        assert(models_of(children@) =~= saved_items(self@));
        make_column(20, None, None, Length::FillPortion(2), children)
    }

    /// The main screen.
    pub fn view_main(&self) -> (node: Node)
        ensures
            node@ == main_scene(self@),
    {
        let mut left: Vec<Node> = Vec::new();
        left.push(self.main_form_node());
        left.push(self.status_node());
        proof {
            lemma_models_of(left@);
        }
        assert(models_of(left@) =~= seq![main_form(self@), status_line(self@)]);
        let mut sides: Vec<Node> = Vec::new();
        sides.push(make_column(20, None, None, Length::FillPortion(3), left));
        sides.push(self.saved_node());
        proof {
            lemma_models_of(sides@);
        }
        assert(models_of(sides@) =~= main_sides(self@));
        make_page(make_row(40, Some(20), sides), true)
    }

    /// The detail screen.
    pub fn view_service_detail(&self) -> (node: Node)
        ensures
            node@ == detail_scene(self@),
    {
        let mut top: Vec<Node> = Vec::new();
        top.push(
            Node::Button {
                label: String::from_str("< Retour"),
                label_size: None,
                on_press: Message::BackToMain,
                padding: None,
                width: Length::Shrink,
                emphasis: None,
            },
        );
        top.push(make_caption(self.detail_title(), 24));
        proof {
            lemma_models_of(top@);
        }
        assert(models_of(top@) =~= seq![back_button(), caption(detail_heading(self@), 24)]);
        let mut header: Vec<Node> = Vec::new();
        header.push(make_row(20, None, top));
        proof {
            lemma_models_of(header@);
        }
        assert(models_of(header@) =~= seq![header@[0]@]);

        let mut fields: Vec<Node> = Vec::new();
        fields.push(
            make_labelled(
                "Mot de passe",
                make_entry("Mot de passe", &self.password_value, Field::Password, false),
            ),
        );
        fields.push(
            make_labelled("Email", make_entry("Email", &self.email_value, Field::Email, false)),
        );
        proof {
            lemma_models_of(fields@);
        }
        assert(models_of(fields@) =~= seq![fields@[0]@, fields@[1]@]);

        let mut buttons: Vec<Node> = Vec::new();
        buttons.push(make_action("Générer nouveau mot de passe", Message::GeneratePassword));
        buttons.push(make_action("Copier", Message::CopyToClipboard));
        buttons.push(make_action("Mettre à jour", Message::UpdatePassword));
        proof {
            lemma_models_of(buttons@);
        }
        assert(models_of(buttons@) =~= seq![buttons@[0]@, buttons@[1]@, buttons@[2]@]);

        let mut children: Vec<Node> = Vec::new();
        children.push(make_column(10, None, None, Length::Shrink, header));
        children.push(make_column(20, None, None, Length::Shrink, fields));
        children.push(make_row(10, None, buttons));
        children.push(self.status_node());
        proof {
            lemma_models_of(children@);
        }
        assert(models_of(children@) =~= detail_items(self@));
        make_page(make_column(30, Some(20), None, Length::Shrink, children), false)
    }
}

} // verus!
