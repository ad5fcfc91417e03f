//! The application's state and the way each event changes it.
//!
//! The state is a plain value and an event is a plain value. Handling an event changes
//! the state and names the outside work that is to follow, as a [`Command`]; what comes
//! of that work returns as an [`Outcome`], which is turned into the next event.

use crate::text::{joined, same_text};
use vstd::prelude::*;
use vstd::view::View as _;

verus! {

/// The screens of the application.
#[derive(Debug, Clone, Copy, PartialEq, Eq, Structural)]
pub enum View {
    Login,
    Main,
    ServiceDetail,
}

/// The events that the application handles.
#[derive(Debug, Clone, PartialEq, Eq)]
pub enum Message {
    InputChanged(String),
    ServiceUrlChanged(String),
    GeneratePassword,
    CopyToClipboard,
    SavePassword,
    RefreshPasswords,
    EmailInputChanged(String),
    SaveEmail,
    EmailReceived(String),
    PasswordSelected(String),
    PasswordGenerated(String),
    PasswordsUpdated(Vec<String>),
    StatusUpdate(String),
    GetEmail,
    ServiceSelected(String),
    /// The service's URL, its password and its email.
    PasswordDetailsReceived(String, String, String),
    ToggleEditMode,
    UpdatePassword,
    ClearForm,
    ClearFormFields,
    NavigateTo(View),
    BackToMain,
    MasterPasswordInputChanged(String),
    LoginAttempt,
}

/// The mathematical content of a [`Message`].
pub enum MessageModel {
    InputChanged(Seq<char>),
    ServiceUrlChanged(Seq<char>),
    GeneratePassword,
    CopyToClipboard,
    SavePassword,
    RefreshPasswords,
    EmailInputChanged(Seq<char>),
    SaveEmail,
    EmailReceived(Seq<char>),
    PasswordSelected(Seq<char>),
    PasswordGenerated(Seq<char>),
    PasswordsUpdated(Seq<Seq<char>>),
    StatusUpdate(Seq<char>),
    GetEmail,
    ServiceSelected(Seq<char>),
    PasswordDetailsReceived(Seq<char>, Seq<char>, Seq<char>),
    ToggleEditMode,
    UpdatePassword,
    ClearForm,
    ClearFormFields,
    NavigateTo(View),
    BackToMain,
    MasterPasswordInputChanged(Seq<char>),
    LoginAttempt,
}

impl vstd::view::View for Message {
    type V = MessageModel;

    open spec fn view(&self) -> MessageModel {
        match self {
            Message::InputChanged(v) => MessageModel::InputChanged(v@),
            Message::ServiceUrlChanged(v) => MessageModel::ServiceUrlChanged(v@),
            Message::GeneratePassword => MessageModel::GeneratePassword,
            Message::CopyToClipboard => MessageModel::CopyToClipboard,
            Message::SavePassword => MessageModel::SavePassword,
            Message::RefreshPasswords => MessageModel::RefreshPasswords,
            Message::EmailInputChanged(v) => MessageModel::EmailInputChanged(v@),
            Message::SaveEmail => MessageModel::SaveEmail,
            Message::EmailReceived(v) => MessageModel::EmailReceived(v@),
            Message::PasswordSelected(v) => MessageModel::PasswordSelected(v@),
            Message::PasswordGenerated(v) => MessageModel::PasswordGenerated(v@),
            Message::PasswordsUpdated(names) => MessageModel::PasswordsUpdated(names.deep_view()),
            Message::StatusUpdate(v) => MessageModel::StatusUpdate(v@),
            Message::GetEmail => MessageModel::GetEmail,
            Message::ServiceSelected(v) => MessageModel::ServiceSelected(v@),
            Message::PasswordDetailsReceived(url, password, email) => {
                MessageModel::PasswordDetailsReceived(url@, password@, email@)
            },
            Message::ToggleEditMode => MessageModel::ToggleEditMode,
            Message::UpdatePassword => MessageModel::UpdatePassword,
            Message::ClearForm => MessageModel::ClearForm,
            Message::ClearFormFields => MessageModel::ClearFormFields,
            Message::NavigateTo(view) => MessageModel::NavigateTo(*view),
            Message::BackToMain => MessageModel::BackToMain,
            Message::MasterPasswordInputChanged(v) => MessageModel::MasterPasswordInputChanged(v@),
            Message::LoginAttempt => MessageModel::LoginAttempt,
        }
    }
}

/// The outside work that handling an event asks for.
#[derive(Debug, PartialEq, Eq)]
pub enum Command {
    /// Nothing is to be done.
    Nothing,
    /// These events are to be handled next.
    Emit(Vec<Message>),
    /// Ask the backend for a fresh password.
    GeneratePassword,
    /// Put this text on the clipboard.
    CopyToClipboard(String),
    /// Store a credential under a service's URL.
    SavePassword { service_url: String, password: String, email: String },
    /// Ask the backend for the names of the stored services.
    ListPasswords,
    /// Store this email address.
    SaveEmail(String),
    /// Ask the backend for the stored email address.
    FetchEmail,
    /// Look up the service shown under this name and fetch its credential.
    FetchDetails(String),
    /// Replace the credential stored under a service's URL.
    UpdatePassword { service_url: String, password: String, email: String },
}

/// The mathematical content of a [`Command`].
pub enum CommandModel {
    Nothing,
    Emit(Seq<MessageModel>),
    GeneratePassword,
    CopyToClipboard(Seq<char>),
    SavePassword { service_url: Seq<char>, password: Seq<char>, email: Seq<char> },
    ListPasswords,
    SaveEmail(Seq<char>),
    FetchEmail,
    FetchDetails(Seq<char>),
    UpdatePassword { service_url: Seq<char>, password: Seq<char>, email: Seq<char> },
}

impl vstd::view::View for Command {
    type V = CommandModel;

    open spec fn view(&self) -> CommandModel {
        match self {
            Command::Nothing => CommandModel::Nothing,
            Command::Emit(messages) => CommandModel::Emit(
                Seq::new(messages@.len(), |i: int| messages@[i]@),
            ),
            Command::GeneratePassword => CommandModel::GeneratePassword,
            Command::CopyToClipboard(text) => CommandModel::CopyToClipboard(text@),
            Command::SavePassword { service_url, password, email } => CommandModel::SavePassword {
                service_url: service_url@,
                password: password@,
                email: email@,
            },
            Command::ListPasswords => CommandModel::ListPasswords,
            Command::SaveEmail(email) => CommandModel::SaveEmail(email@),
            Command::FetchEmail => CommandModel::FetchEmail,
            Command::FetchDetails(name) => CommandModel::FetchDetails(name@),
            Command::UpdatePassword { service_url, password, email } => {
                CommandModel::UpdatePassword {
                    service_url: service_url@,
                    password: password@,
                    email: email@,
                }
            },
        }
    }
}

/// What came of the work that a [`Command`] asked for.
#[derive(Debug, PartialEq, Eq)]
pub enum Outcome {
    PasswordGenerated(Result<String, String>),
    PasswordSaved(Result<(), String>),
    /// The names of the stored services.
    PasswordsListed(Result<Vec<String>, String>),
    EmailSaved(Result<(), String>),
    EmailFetched(Result<String, String>),
    /// The name that was looked up, and the URL, password and email found for it.
    DetailsFetched(String, Result<(String, String, String), String>),
    PasswordUpdated(Result<(), String>),
}

/// The event that reports `outcome`: the values that arrived, or a status message
/// that says, behind a label, what went wrong.
pub open spec fn follow_up(outcome: Outcome) -> MessageModel {
    match outcome {
        Outcome::PasswordGenerated(Ok(password)) => MessageModel::PasswordGenerated(password@),
        Outcome::PasswordGenerated(Err(e)) => MessageModel::StatusUpdate(
            "Erreur génération: "@ + e@,
        ),
        Outcome::PasswordSaved(Ok(_)) => MessageModel::StatusUpdate("Sauvegarde réussie"@),
        Outcome::PasswordSaved(Err(e)) => MessageModel::StatusUpdate("Erreur: "@ + e@),
        Outcome::PasswordsListed(Ok(names)) => MessageModel::PasswordsUpdated(names.deep_view()),
        Outcome::PasswordsListed(Err(e)) => MessageModel::StatusUpdate("Erreur: "@ + e@),
        Outcome::EmailSaved(Ok(_)) => MessageModel::StatusUpdate("Email sauvegardé!"@),
        Outcome::EmailSaved(Err(e)) => MessageModel::StatusUpdate(
            "Erreur sauvegarde email: "@ + e@,
        ),
        Outcome::EmailFetched(Ok(email)) => MessageModel::EmailReceived(email@),
        Outcome::EmailFetched(Err(e)) => MessageModel::StatusUpdate("Erreur: "@ + e@),
        Outcome::DetailsFetched(_, Ok(found)) => MessageModel::PasswordDetailsReceived(
            found.0@,
            found.1@,
            found.2@,
        ),
        Outcome::DetailsFetched(name, Err(e)) => MessageModel::StatusUpdate(
            "Erreur: Service '"@ + name@ + "' non trouvé. "@ + e@,
        ),
        Outcome::PasswordUpdated(Ok(_)) => MessageModel::StatusUpdate(
            "Mot de passe mis à jour avec succès"@,
        ),
        Outcome::PasswordUpdated(Err(e)) => MessageModel::StatusUpdate(
            "Erreur de mise à jour: "@ + e@,
        ),
    }
}

impl Message {
    /// The event by which the application learns of `outcome`.
    pub fn from_outcome(outcome: Outcome) -> (message: Message)
        ensures
            message@ == follow_up(outcome),
    {
        match outcome {
            Outcome::PasswordGenerated(Ok(password)) => Message::PasswordGenerated(password),
            Outcome::PasswordGenerated(Err(e)) => Message::StatusUpdate(
                joined("Erreur génération: ", e.as_str()),
            ),
            Outcome::PasswordSaved(Ok(_)) => Message::StatusUpdate(
                String::from_str("Sauvegarde réussie"),
            ),
            Outcome::PasswordSaved(Err(e)) => Message::StatusUpdate(joined("Erreur: ", e.as_str())),
            Outcome::PasswordsListed(Ok(names)) => Message::PasswordsUpdated(names),
            Outcome::PasswordsListed(Err(e)) => Message::StatusUpdate(
                joined("Erreur: ", e.as_str()),
            ),
            Outcome::EmailSaved(Ok(_)) => Message::StatusUpdate(
                String::from_str("Email sauvegardé!"),
            ),
            Outcome::EmailSaved(Err(e)) => Message::StatusUpdate(
                joined("Erreur sauvegarde email: ", e.as_str()),
            ),
            Outcome::EmailFetched(Ok(email)) => Message::EmailReceived(email),
            Outcome::EmailFetched(Err(e)) => Message::StatusUpdate(joined("Erreur: ", e.as_str())),
            Outcome::DetailsFetched(_, Ok(found)) => Message::PasswordDetailsReceived(
                found.0,
                found.1,
                found.2,
            ),
            Outcome::DetailsFetched(name, Err(e)) => {
                let text = joined("Erreur: Service '", name.as_str()).concat(
                    "' non trouvé. ",
                ).concat(e.as_str());
                Message::StatusUpdate(text)
            },
            Outcome::PasswordUpdated(Ok(_)) => Message::StatusUpdate(
                String::from_str("Mot de passe mis à jour avec succès"),
            ),
            Outcome::PasswordUpdated(Err(e)) => Message::StatusUpdate(
                joined("Erreur de mise à jour: ", e.as_str()),
            ),
        }
    }
}

/// The state of the application.
#[derive(Debug, PartialEq, Eq)]
pub struct PasswordManagerApp {
    pub current_view: View,
    pub password_value: String,
    pub service_url_value: String,
    pub email_value: String,
    /// The names under which the stored services are listed.
    pub passwords: Vec<String>,
    pub selected_password: Option<String>,
    pub editing_mode: bool,
    pub current_service_url: Option<String>,
    pub status_message: Option<String>,
    pub master_password: String,
    pub is_authenticated: bool,
}

/// The mathematical content of a [`PasswordManagerApp`].
pub struct AppModel {
    pub current_view: View,
    pub password_value: Seq<char>,
    pub service_url_value: Seq<char>,
    pub email_value: Seq<char>,
    pub passwords: Seq<Seq<char>>,
    pub selected_password: Option<Seq<char>>,
    pub editing_mode: bool,
    pub current_service_url: Option<Seq<char>>,
    pub status_message: Option<Seq<char>>,
    pub master_password: Seq<char>,
    pub is_authenticated: bool,
}

impl vstd::view::View for PasswordManagerApp {
    type V = AppModel;

    open spec fn view(&self) -> AppModel {
        AppModel {
            current_view: self.current_view,
            password_value: self.password_value@,
            service_url_value: self.service_url_value@,
            email_value: self.email_value@,
            passwords: self.passwords.deep_view(),
            selected_password: self.selected_password.deep_view(),
            editing_mode: self.editing_mode,
            current_service_url: self.current_service_url.deep_view(),
            status_message: self.status_message.deep_view(),
            master_password: self.master_password@,
            is_authenticated: self.is_authenticated,
        }
    }
}

/// The passphrase that opens the application.
pub open spec fn master_passphrase() -> Seq<char> {
    "mushroom123"@
}

/// The state in which the application starts: locked, at the login screen, all empty.
pub open spec fn initial() -> AppModel {
    AppModel {
        current_view: View::Login,
        password_value: Seq::empty(),
        service_url_value: Seq::empty(),
        email_value: Seq::empty(),
        passwords: Seq::empty(),
        selected_password: None,
        editing_mode: false,
        current_service_url: None,
        status_message: None,
        master_password: Seq::empty(),
        is_authenticated: false,
    }
}

/// While nobody has logged in and the login screen shows, only the two login events
/// are handled.
pub open spec fn locked(s: AppModel) -> bool {
    !s.is_authenticated && s.current_view == View::Login
}

/// The two events of the login screen.
pub open spec fn is_login_event(m: MessageModel) -> bool {
    m is MasterPasswordInputChanged || m is LoginAttempt
}

/// The state after `m` was handled in the state `s`.
pub open spec fn step(s: AppModel, m: MessageModel) -> AppModel {
    match m {
        MessageModel::MasterPasswordInputChanged(value) => AppModel { master_password: value, ..s },
        MessageModel::LoginAttempt => if s.master_password == master_passphrase() {
            AppModel {
                is_authenticated: true,
                current_view: View::Main,
                status_message: Some("Connexion réussie"@),
                ..s
            }
        } else {
            AppModel { status_message: Some("Mot de passe incorrect"@), ..s }
        },
        _ => if locked(s) {
            s
        } else {
            unlocked_step(s, m)
        },
    }
}

/// The state after `m`, which is none of the two login events, was handled in a state
/// that is not locked.
pub open spec fn unlocked_step(s: AppModel, m: MessageModel) -> AppModel {
    match m {
        MessageModel::InputChanged(value) => AppModel { password_value: value, ..s },
        MessageModel::ServiceUrlChanged(value) => AppModel { service_url_value: value, ..s },
        MessageModel::CopyToClipboard => AppModel {
            status_message: Some("Mot de passe copié dans le presse-papiers"@),
            ..s
        },
        MessageModel::EmailInputChanged(value) => AppModel { email_value: value, ..s },
        MessageModel::PasswordSelected(name) => AppModel { selected_password: Some(name), ..s },
        MessageModel::PasswordGenerated(password) => AppModel { password_value: password, ..s },
        MessageModel::PasswordsUpdated(names) => AppModel { passwords: names, ..s },
        MessageModel::StatusUpdate(status) => AppModel { status_message: Some(status), ..s },
        MessageModel::EmailReceived(email) => AppModel { email_value: email, ..s },
        MessageModel::ServiceSelected(name) => AppModel {
            selected_password: Some(name),
            current_view: View::ServiceDetail,
            ..s
        },
        MessageModel::PasswordDetailsReceived(url, password, email) => AppModel {
            service_url_value: url,
            password_value: password,
            email_value: email,
            current_service_url: Some(url),
            editing_mode: true,
            status_message: Some("Informations du service chargées"@),
            ..s
        },
        MessageModel::ToggleEditMode => AppModel { editing_mode: !s.editing_mode, ..s },
        MessageModel::UpdatePassword => if s.current_service_url is Some {
            AppModel { status_message: Some("Mise à jour en cours..."@), ..s }
        } else {
            AppModel { status_message: Some("Erreur: URL du service non disponible"@), ..s }
        },
        MessageModel::ClearForm | MessageModel::ClearFormFields => AppModel {
            password_value: Seq::empty(),
            service_url_value: Seq::empty(),
            current_service_url: None,
            editing_mode: false,
            selected_password: None,
            ..s
        },
        MessageModel::NavigateTo(view) => AppModel { current_view: view, ..s },
        MessageModel::BackToMain => AppModel {
            current_view: View::Main,
            selected_password: None,
            editing_mode: false,
            current_service_url: None,
            password_value: Seq::empty(),
            service_url_value: Seq::empty(),
            email_value: Seq::empty(),
            ..s
        },
        _ => s,
    }
}

/// The outside work that handling `m` in the state `s` asks for.
pub open spec fn command_for(s: AppModel, m: MessageModel) -> CommandModel {
    match m {
        MessageModel::MasterPasswordInputChanged(_) => CommandModel::Nothing,
        MessageModel::LoginAttempt => if s.master_password == master_passphrase() {
            CommandModel::Emit(seq![MessageModel::GetEmail, MessageModel::RefreshPasswords])
        } else {
            CommandModel::Nothing
        },
        _ => if locked(s) {
            CommandModel::Nothing
        } else {
            unlocked_command(s, m)
        },
    }
}

/// The outside work that `m`, which is none of the two login events, asks for in a
/// state that is not locked.
pub open spec fn unlocked_command(s: AppModel, m: MessageModel) -> CommandModel {
    match m {
        MessageModel::GeneratePassword => CommandModel::GeneratePassword,
        MessageModel::CopyToClipboard => CommandModel::CopyToClipboard(s.password_value),
        MessageModel::SavePassword => CommandModel::SavePassword {
            service_url: s.service_url_value,
            password: s.password_value,
            email: s.email_value,
        },
        MessageModel::RefreshPasswords => CommandModel::ListPasswords,
        MessageModel::SaveEmail => CommandModel::SaveEmail(s.email_value),
        MessageModel::GetEmail => CommandModel::FetchEmail,
        MessageModel::ServiceSelected(name) => CommandModel::FetchDetails(name),
        MessageModel::UpdatePassword => match s.current_service_url {
            Some(url) => CommandModel::UpdatePassword {
                service_url: url,
                password: s.password_value,
                email: s.email_value,
            },
            None => CommandModel::Nothing,
        },
        MessageModel::BackToMain => CommandModel::Emit(seq![MessageModel::RefreshPasswords]),
        _ => CommandModel::Nothing,
    }
}

/// The title of the application.
pub open spec fn app_title() -> Seq<char> {
    "Gestionnaire de mots de passe Mushroom"@
}

/// The text of the status line: the last status message, or nothing.
pub open spec fn status_of(s: AppModel) -> Seq<char> {
    match s.status_message {
        Some(message) => message,
        None => Seq::empty(),
    }
}

/// The heading of the detail screen: the selected service's name behind a label.
pub open spec fn detail_heading(s: AppModel) -> Seq<char> {
    "Détails du service: "@ + match s.selected_password {
        Some(name) => name,
        None => Seq::empty(),
    }
}

/// The screens behind the login show only after a login.
pub open spec fn well_formed(s: AppModel) -> bool {
    s.is_authenticated || s.current_view == View::Login
}

/// A password that is shown as too short: not empty, and under four bytes of UTF-8.
pub open spec fn too_short(password: Seq<char>) -> bool {
    password.len() != 0 && vstd::utf8::encode_utf8(password).len() < 4
}

/// The application starts locked, and well formed.
pub proof fn law_starts_locked()
    ensures
        locked(initial()),
        well_formed(initial()),
{
}

/// No event leads from a well-formed state to one that is not.
pub proof fn law_step_keeps_well_formed(s: AppModel, m: MessageModel)
    requires
        well_formed(s),
    ensures
        well_formed(step(s, m)),
{
}

/// While the application is locked, an event that is none of the two login events
/// changes nothing and asks for nothing.
pub proof fn law_locked_ignores(s: AppModel, m: MessageModel)
    requires
        locked(s),
        !is_login_event(m),
    ensures
        step(s, m) == s,
        command_for(s, m) == CommandModel::Nothing,
{
}

/// Only a login attempt made with the passphrase typed in logs anybody in.
pub proof fn law_login_needs_passphrase(s: AppModel, m: MessageModel)
    requires
        !s.is_authenticated,
        step(s, m).is_authenticated,
    ensures
        m is LoginAttempt,
        s.master_password == master_passphrase(),
{
}

/// No event logs anybody out.
pub proof fn law_login_is_kept(s: AppModel, m: MessageModel)
    requires
        s.is_authenticated,
    ensures
        step(s, m).is_authenticated,
{
}

/// A login attempt with another passphrase leaves all but the status message as it
/// was, and asks for nothing.
pub proof fn law_wrong_passphrase_is_refused(s: AppModel)
    requires
        s.master_password != master_passphrase(),
    ensures
        step(s, MessageModel::LoginAttempt) == (AppModel {
            status_message: Some("Mot de passe incorrect"@),
            ..s
        }),
        command_for(s, MessageModel::LoginAttempt) == CommandModel::Nothing,
{
}

impl PasswordManagerApp {
    /// The application as it starts.
    pub fn new() -> (app: Self)
        ensures
            app@ == initial(),
    {
        let app = PasswordManagerApp {
            current_view: View::Login,
            password_value: String::new(),
            service_url_value: String::new(),
            email_value: String::new(),
            passwords: Vec::new(),
            selected_password: None,
            editing_mode: false,
            current_service_url: None,
            status_message: None,
            master_password: String::new(),
            is_authenticated: false,
        };
        assert(app.passwords.deep_view() =~= Seq::empty());
        app
    }

    /// The title of the application's window.
    pub fn title(&self) -> (title: String)
        ensures
            title@ == app_title(),
    {
        String::from_str("Gestionnaire de mots de passe Mushroom")
    }

    /// The status line: the last status message, or nothing.
    pub fn status_text(&self) -> (text: String)
        ensures
            text@ == status_of(self@),
    {
        match &self.status_message {
            Some(message) => message.clone(),
            None => String::new(),
        }
    }

    /// Whether `name` is the service that was picked from the list.
    pub fn is_selected(&self, name: &str) -> (selected: bool)
        ensures
            selected == (self@.selected_password == Some(name@)),
    {
        match &self.selected_password {
            Some(picked) => same_text(picked.as_str(), name),
            None => false,
        }
    }

    /// Whether the password typed in is to be shown as too short.
    pub fn password_too_short(&self) -> (short: bool)
        ensures
            short == too_short(self@.password_value),
    {
        let password = self.password_value.as_str();
        password.as_bytes().len() < 4 && !password.is_empty()
    }

    /// The heading of the detail screen: the picked service's name behind a label.
    pub fn detail_title(&self) -> (title: String)
        ensures
            title@ == detail_heading(self@),
    {
        match &self.selected_password {
            Some(name) => joined("Détails du service: ", name.as_str()),
            None => {
                let title = String::from_str("Détails du service: ");
                title
            },
        }
    }

    /// Handles one event: the state becomes `step` of the old state and the event, and
    /// the result is the work that `command_for` names for them.
    pub fn update(&mut self, message: Message) -> (command: Command)
        ensures
            final(self)@ == step(old(self)@, message@),
            command@ == command_for(old(self)@, message@),
            well_formed(old(self)@) ==> well_formed(final(self)@),
    {
        match message {
            Message::MasterPasswordInputChanged(value) => {
                self.master_password = value;
                Command::Nothing
            },
            Message::LoginAttempt => {
                if self.master_password == String::from_str("mushroom123") {
                    self.is_authenticated = true;
                    self.current_view = View::Main;
                    self.status_message = Some(String::from_str("Connexion réussie"));
                    let mut next: Vec<Message> = Vec::new();
                    next.push(Message::GetEmail);
                    next.push(Message::RefreshPasswords);
                    assert(Seq::new(next@.len(), |i: int| next@[i]@) =~= seq![
                        MessageModel::GetEmail,
                        MessageModel::RefreshPasswords,
                    ]);
                    Command::Emit(next)
                } else {
                    self.status_message = Some(String::from_str("Mot de passe incorrect"));
                    Command::Nothing
                }
            },
            other => {
                if !self.is_authenticated && self.current_view == View::Login {
                    return Command::Nothing;
                }
                self.update_unlocked(other)
            },
        }
    }

    /// Handles an event that is none of the two login events, in a state that is not
    /// locked.
    fn update_unlocked(&mut self, message: Message) -> (command: Command)
        requires
            !is_login_event(message@),
        ensures
            final(self)@ == unlocked_step(old(self)@, message@),
            command@ == unlocked_command(old(self)@, message@),
    {
        match message {
            Message::InputChanged(value) => {
                self.password_value = value;
                Command::Nothing
            },
            Message::ServiceUrlChanged(value) => {
                self.service_url_value = value;
                Command::Nothing
            },
            Message::GeneratePassword => Command::GeneratePassword,
            Message::CopyToClipboard => {
                let text = self.password_value.clone();
                self.status_message = Some(
                    String::from_str("Mot de passe copié dans le presse-papiers"),
                );
                Command::CopyToClipboard(text)
            },
            Message::SavePassword => Command::SavePassword {
                service_url: self.service_url_value.clone(),
                password: self.password_value.clone(),
                email: self.email_value.clone(),
            },
            Message::RefreshPasswords => Command::ListPasswords,
            Message::EmailInputChanged(value) => {
                self.email_value = value;
                Command::Nothing
            },
            Message::SaveEmail => Command::SaveEmail(self.email_value.clone()),
            Message::PasswordSelected(name) => {
                self.selected_password = Some(name);
                Command::Nothing
            },
            Message::PasswordGenerated(password) => {
                self.password_value = password;
                Command::Nothing
            },
            Message::PasswordsUpdated(names) => {
                self.passwords = names;
                Command::Nothing
            },
            Message::StatusUpdate(status) => {
                self.status_message = Some(status);
                Command::Nothing
            },
            Message::GetEmail => Command::FetchEmail,
            Message::EmailReceived(email) => {
                self.email_value = email;
                Command::Nothing
            },
            Message::ServiceSelected(name) => {
                self.selected_password = Some(name.clone());
                self.current_view = View::ServiceDetail;
                Command::FetchDetails(name)
            },
            Message::PasswordDetailsReceived(url, password, email) => {
                self.service_url_value = url.clone();
                self.password_value = password;
                self.email_value = email;
                self.current_service_url = Some(url);
                self.editing_mode = true;
                self.status_message = Some(String::from_str("Informations du service chargées"));
                Command::Nothing
            },
            Message::ToggleEditMode => {
                self.editing_mode = !self.editing_mode;
                Command::Nothing
            },
            Message::UpdatePassword => {
                let target = match &self.current_service_url {
                    Some(url) => Some(url.clone()),
                    None => None,
                };
                match target {
                    Some(service_url) => {
                        let password = self.password_value.clone();
                        let email = self.email_value.clone();
                        self.status_message = Some(String::from_str("Mise à jour en cours..."));
                        Command::UpdatePassword { service_url, password, email }
                    },
                    None => {
                        self.status_message = Some(
                            String::from_str("Erreur: URL du service non disponible"),
                        );
                        Command::Nothing
                    },
                }
            },
            Message::ClearForm | Message::ClearFormFields => {
                self.password_value = String::new();
                self.service_url_value = String::new();
                self.current_service_url = None;
                self.editing_mode = false;
                self.selected_password = None;
                Command::Nothing
            },
            Message::NavigateTo(view) => {
                self.current_view = view;
                Command::Nothing
            },
            Message::BackToMain => {
                self.current_view = View::Main;
                self.selected_password = None;
                self.editing_mode = false;
                self.current_service_url = None;
                self.password_value = String::new();
                self.service_url_value = String::new();
                self.email_value = String::new();
                let mut next: Vec<Message> = Vec::new();
                next.push(Message::RefreshPasswords);
                assert(Seq::new(next@.len(), |i: int| next@[i]@) =~= seq![
                    MessageModel::RefreshPasswords,
                ]);
                Command::Emit(next)
            },
            _ => Command::Nothing,
        }
    }
}

} // verus!
