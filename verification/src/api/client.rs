//! The backend's endpoints: the request that each one takes, and the meaning of each
//! reply.
//!
//! Every exchange is split around the network. A `..._request` function describes what
//! is to be sent; the function named after the operation takes what came back, as a
//! [`Reply`], and says what it means: the value asked for, or the text of an error.

use crate::api::http::{text_result, unit_result, Method, Reply, Request, RequestModel};
use crate::api::json::{json_reading, lemma_member_models_of, reading_model, Json, JsonModel};
use crate::api::service::{is_found, not_found_error, service_name};
use crate::text::joined;
use vstd::prelude::*;

verus! {

/// Where the backend listens.
pub const API_BASE_URL: &'static str = "http://localhost:5000";

/// The address of the endpoint `path`.
pub open spec fn endpoint(path: Seq<char>) -> Seq<char> {
    API_BASE_URL@ + path
}

/// The body of the answer to a request for a fresh password.
#[derive(Debug, PartialEq, Eq)]
pub struct PasswordResponse {
    pub password: String,
}

/// The body of the answer to a request for the stored email address.
#[derive(Debug, PartialEq, Eq)]
pub struct EmailResponse {
    pub email: String,
}

/// One stored credential, as the backend lists it under the service's URL.
#[derive(Debug, PartialEq, Eq)]
pub struct SavedPassword {
    pub service_name: String,
    pub service_password: String,
    pub email: Option<String>,
}

/// The client of the backend. It holds no connection: see the module's description.
#[derive(Debug, Clone, Copy)]
pub struct ApiClient {}

/// The text of the error for a request that got no answer.
pub open spec fn network_error(e: Seq<char>) -> Seq<char> {
    "Erreur réseau: "@ + e
}

/// The text of the error for an answer whose status does not report success.
pub open spec fn http_error(status: Seq<char>) -> Seq<char> {
    "Erreur HTTP: "@ + status
}

/// The text of the error for a body that is not the JSON expected.
pub open spec fn decode_error(e: Seq<char>) -> Seq<char> {
    "Erreur de décodage JSON: "@ + e
}

/// The three kinds of failure are told apart by their texts, whatever the details.
pub proof fn law_failures_are_told_apart(e: Seq<char>, status: Seq<char>, d: Seq<char>)
    ensures
        network_error(e) != http_error(status),
        network_error(e) != decode_error(d),
        http_error(status) != decode_error(d),
{
    reveal_strlit("Erreur réseau: ");
    reveal_strlit("Erreur HTTP: ");
    reveal_strlit("Erreur de décodage JSON: ");
    assert(http_error(status)[7] == 'H');
    assert(decode_error(d)[7] == 'd');
}

/// What a reply to the request for a fresh password means.
pub open spec fn generated_password(reply: Reply<Result<PasswordResponse, String>>) -> Result<
    Seq<char>,
    Seq<char>,
> {
    match reply {
        Reply::Unreachable(e) => Err(network_error(e@)),
        Reply::Answered(status, body) => if status.success() {
            match body {
                Ok(data) => Ok(data.password@),
                Err(e) => Err(decode_error(e@)),
            }
        } else {
            Err("Erreur HTTP lors de la génération: "@ + status.text@)
        },
    }
}

/// What a reply means where only the status counts.
pub open spec fn acknowledged(reply: Reply<()>) -> Result<(), Seq<char>> {
    match reply {
        Reply::Unreachable(e) => Err(network_error(e@)),
        Reply::Answered(status, _) => if status.success() {
            Ok(())
        } else {
            Err(http_error(status.text@))
        },
    }
}

/// What a reply to the request for the stored email address means.
pub open spec fn fetched_email(reply: Reply<Result<EmailResponse, String>>) -> Result<
    Seq<char>,
    Seq<char>,
> {
    match reply {
        Reply::Unreachable(e) => Err("Erreur réseau lors de la récupération de l'email: "@ + e@),
        Reply::Answered(status, body) => if status.success() {
            match body {
                Ok(data) => Ok(data.email@),
                Err(e) => Err("Erreur de décodage JSON pour l'email: "@ + e@),
            }
        } else {
            Err("Erreur HTTP lors de la récupération de l'email: "@ + status.text@)
        },
    }
}

/// The names to show for a listing: for an object, the service name of each member's
/// name, in the members' order; for an array of texts, those texts.
pub open spec fn listed_names(json: JsonModel) -> Result<Seq<Seq<char>>, Seq<char>> {
    match json.member_names() {
        Some(urls) => Ok(Seq::new(urls.len(), |i: int| service_name(urls[i]))),
        None => match json.text_list() {
            Some(names) => Ok(names),
            None => Err("Format de réponse inattendu"@),
        },
    }
}

/// What a reply to the request for the listing means, as names to show.
pub open spec fn saved_passwords(reply: Reply<Result<Json, String>>) -> Result<
    Seq<Seq<char>>,
    Seq<char>,
> {
    match reply {
        Reply::Unreachable(e) => Err(network_error(e@)),
        Reply::Answered(status, body) => if status.success() {
            match body {
                Ok(json) => listed_names(json@),
                Err(e) => Err(decode_error(e@)),
            }
        } else {
            Err(http_error(status.text@))
        },
    }
}

/// What a reply to the request for all that is stored means: the stored credentials
/// as they were handed in, each under its key.
pub open spec fn fetched_data(reply: Reply<Result<Vec<(String, SavedPassword)>, String>>)
    -> Result<Vec<(String, SavedPassword)>, Seq<char>> {
    match reply {
        Reply::Unreachable(e) => Err(network_error(e@)),
        Reply::Answered(status, body) => if status.success() {
            match body {
                Ok(entries) => Ok(entries),
                Err(e) => Err(decode_error(e@)),
            }
        } else {
            Err(http_error(status.text@))
        },
    }
}

/// Stored credentials or an error text, the text taken by its characters.
pub open spec fn data_result(r: Result<Vec<(String, SavedPassword)>, String>) -> Result<
    Vec<(String, SavedPassword)>,
    Seq<char>,
> {
    match r {
        Ok(entries) => Ok(entries),
        Err(e) => Err(e@),
    }
}

/// A result of names or an error text, all taken by their characters.
pub open spec fn names_result(r: Result<Vec<String>, String>) -> Result<
    Seq<Seq<char>>,
    Seq<char>,
> {
    match r {
        Ok(names) => Ok(names.deep_view()),
        Err(e) => Err(e@),
    }
}

/// The credential that a document holds: its text member `service_password`, with
/// the text member `email`, or no email where there is none. `reading` is what the
/// reader made of the body `text`.
pub open spec fn password_details(
    service_url: Seq<char>,
    text: Seq<char>,
    reading: Result<JsonModel, Seq<char>>,
) -> Result<(Seq<char>, Seq<char>, Seq<char>), Seq<char>> {
    match reading {
        Ok(json) => match json.text_member("service_password"@) {
            Some(password) => Ok(
                (
                    service_url,
                    password,
                    match json.text_member("email"@) {
                        Some(email) => email,
                        None => Seq::empty(),
                    },
                ),
            ),
            None => Err("Format de réponse invalide: "@ + text),
        },
        Err(e) => Err(decode_error(e) + ". Réponse: "@ + text),
    }
}

/// What a reply to the request for one credential means.
pub open spec fn fetched_details(service_url: Seq<char>, reply: Reply<Result<String, String>>)
    -> Result<(Seq<char>, Seq<char>, Seq<char>), Seq<char>> {
    match reply {
        Reply::Unreachable(e) => Err(network_error(e@)),
        Reply::Answered(status, body) => if status.success() {
            match body {
                Ok(text) => password_details(service_url, text@, json_reading(text@)),
                Err(e) => Err("Erreur lors de la lecture de la réponse: "@ + e@),
            }
        } else {
            match body {
                Ok(text) => Err("Erreur HTTP "@ + status.text@ + ": "@ + text@),
                Err(_) => Err("Erreur HTTP "@ + status.text@),
            }
        },
    }
}

/// A credential or an error text, all taken by their characters.
pub open spec fn details_result(r: Result<(String, String, String), String>) -> Result<
    (Seq<char>, Seq<char>, Seq<char>),
    Seq<char>,
> {
    match r {
        Ok(found) => Ok((found.0@, found.1@, found.2@)),
        Err(e) => Err(e@),
    }
}

/// What a reply to the request to replace a credential means. The body counts only
/// where the status reports a failure: `Some` where its text could be read.
pub open spec fn updated(reply: Reply<Option<String>>) -> Result<(), Seq<char>> {
    match reply {
        Reply::Unreachable(e) => Err(network_error(e@)),
        Reply::Answered(status, body) => if status.success() {
            Ok(())
        } else {
            match body {
                Some(text) => Err(http_error(status.text@) + ". Détails: "@ + text@),
                None => Err(http_error(status.text@)),
            }
        },
    }
}

/// The request that the endpoint `/save-password` takes: the service's URL, the name
/// under which the service is shown, the password and the email.
pub open spec fn save_request(service_url: Seq<char>, password: Seq<char>, email: Seq<char>)
    -> RequestModel {
    RequestModel {
        method: Method::Post,
        url: endpoint("/save-password"@),
        json: Some(
            seq![
                ("service"@, service_url),
                ("service_name"@, service_name(service_url)),
                ("password"@, password),
                ("email"@, email),
            ],
        ),
    }
}

impl ApiClient {
    /// The client.
    pub fn new() -> (client: Self)
        ensures
            client == (ApiClient {  }),
    {
        ApiClient {  }
    }

    /// The request for a fresh password.
    pub fn generate_password_request(&self) -> (request: Request)
        ensures
            request@ == (RequestModel {
                method: Method::Get,
                url: endpoint("/generate-password"@),
                json: None,
            }),
    {
        Request {
            method: Method::Get,
            url: joined(API_BASE_URL, "/generate-password"),
            json: None,
        }
    }

    /// The fresh password that `reply` brings.
    pub fn generate_password(&self, reply: Reply<Result<PasswordResponse, String>>) -> (r: Result<
        String,
        String,
    >)
        ensures
            text_result(r) == generated_password(reply),
    {
        match reply {
            Reply::Unreachable(e) => Err(joined("Erreur réseau: ", e.as_str())),
            Reply::Answered(status, body) => {
                if status.is_success() {
                    match body {
                        Ok(data) => Ok(data.password),
                        Err(e) => Err(joined("Erreur de décodage JSON: ", e.as_str())),
                    }
                } else {
                    Err(joined("Erreur HTTP lors de la génération: ", status.text.as_str()))
                }
            },
        }
    }

    /// The request that stores `password` and `email` for the service at
    /// `service_url`, under the name that `extract_service_name` gives it.
    pub fn save_password_request(&self, service_url: &str, password: &str, email: &str) -> (request:
        Request)
        ensures
            request@ == save_request(service_url@, password@, email@),
    {
        let mut fields: Vec<(String, String)> = Vec::new();
        fields.push((String::from_str("service"), String::from_str(service_url)));
        fields.push((String::from_str("service_name"), self.extract_service_name(service_url)));
        fields.push((String::from_str("password"), String::from_str(password)));
        fields.push((String::from_str("email"), String::from_str(email)));
        assert(fields.deep_view() =~= seq![
            ("service"@, service_url@),
            ("service_name"@, service_name(service_url@)),
            ("password"@, password@),
            ("email"@, email@),
        ]);
        Request {
            method: Method::Post,
            url: joined(API_BASE_URL, "/save-password"),
            json: Some(fields),
        }
    }

    /// Whether `reply` says that the credential was stored.
    pub fn save_password(&self, reply: Reply<()>) -> (r: Result<(), String>)
        ensures
            unit_result(r) == acknowledged(reply),
    {
        Self::acknowledgement(reply)
    }

    /// What a reply means where only the status counts.
    fn acknowledgement(reply: Reply<()>) -> (r: Result<(), String>)
        ensures
            unit_result(r) == acknowledged(reply),
    {
        match reply {
            Reply::Unreachable(e) => Err(joined("Erreur réseau: ", e.as_str())),
            Reply::Answered(status, _) => {
                if status.is_success() {
                    Ok(())
                } else {
                    Err(joined("Erreur HTTP: ", status.text.as_str()))
                }
            },
        }
    }

    /// The request for all that is stored.
    pub fn list_passwords_request(&self) -> (request: Request)
        ensures
            request@ == (RequestModel {
                method: Method::Get,
                url: endpoint("/list-passwords"@),
                json: None,
            }),
    {
        Request {
            method: Method::Get,
            url: joined(API_BASE_URL, "/list-passwords"),
            json: None,
        }
    }

    /// The stored credentials that `reply` brings, each under its key, in the order in
    /// which they were handed over.
    pub fn get_data(&self, reply: Reply<Result<Vec<(String, SavedPassword)>, String>>) -> (r:
        Result<Vec<(String, SavedPassword)>, String>)
        ensures
            data_result(r) == fetched_data(reply),
    {
        match reply {
            Reply::Unreachable(e) => Err(joined("Erreur réseau: ", e.as_str())),
            Reply::Answered(status, body) => {
                if status.is_success() {
                    match body {
                        Ok(entries) => Ok(entries),
                        Err(e) => Err(joined("Erreur de décodage JSON: ", e.as_str())),
                    }
                } else {
                    Err(joined("Erreur HTTP: ", status.text.as_str()))
                }
            },
        }
    }

    /// The names to show for the listing `json`.
    pub fn names_of_listing(&self, json: &Json) -> (r: Result<Vec<String>, String>)
        ensures
            names_result(r) == listed_names(json@),
    {
        match json {
            Json::Object(members) => {
                let ghost model = json@->Object_0;
                let ghost urls = json@.member_names()->Some_0;
                proof {
                    lemma_member_models_of(members@);
                }
                let mut names: Vec<String> = Vec::new();
                let mut i: usize = 0;
                while i < members.len()
                    invariant
                        i <= members.len(),
                        model.len() == members@.len(),
                        forall|j: int|
                            0 <= j < model.len() ==> (#[trigger] model[j]).name
                                == members@[j].name@,
                        names@.len() == i,
                        forall|j: int|
                            0 <= j < i ==> (#[trigger] names@[j])@ == service_name(
                                members@[j].name@,
                            ),
                    decreases members.len() - i,
                {
                    names.push(self.extract_service_name(members[i].name.as_str()));
                    i += 1;
                }
                assert(names.deep_view() =~= Seq::new(urls.len(), |i: int| service_name(urls[i])));
                Ok(names)
            },
            _ => match json.text_list() {
                Some(names) => Ok(names),
                None => Err(String::from_str("Format de réponse inattendu")),
            },
        }
    }

    /// The names of the stored services that `reply` brings.
    pub fn get_saved_passwords(&self, reply: Reply<Result<Json, String>>) -> (r: Result<
        Vec<String>,
        String,
    >)
        ensures
            names_result(r) == saved_passwords(reply),
    {
        match reply {
            Reply::Unreachable(e) => Err(joined("Erreur réseau: ", e.as_str())),
            Reply::Answered(status, body) => {
                if status.is_success() {
                    match body {
                        Ok(json) => self.names_of_listing(&json),
                        Err(e) => Err(joined("Erreur de décodage JSON: ", e.as_str())),
                    }
                } else {
                    Err(joined("Erreur HTTP: ", status.text.as_str()))
                }
            },
        }
    }

    /// The request for the stored email address.
    pub fn get_email_request(&self) -> (request: Request)
        ensures
            request@ == (RequestModel {
                method: Method::Get,
                url: endpoint("/getEmail"@),
                json: None,
            }),
    {
        Request {
            method: Method::Get,
            url: joined(API_BASE_URL, "/getEmail"),
            json: None,
        }
    }

    /// The email address that `reply` brings.
    pub fn get_email(&self, reply: Reply<Result<EmailResponse, String>>) -> (r: Result<
        String,
        String,
    >)
        ensures
            text_result(r) == fetched_email(reply),
    {
        match reply {
            Reply::Unreachable(e) => Err(
                joined("Erreur réseau lors de la récupération de l'email: ", e.as_str()),
            ),
            Reply::Answered(status, body) => {
                if status.is_success() {
                    match body {
                        Ok(data) => Ok(data.email),
                        Err(e) => Err(
                            joined("Erreur de décodage JSON pour l'email: ", e.as_str()),
                        ),
                    }
                } else {
                    Err(
                        joined(
                            "Erreur HTTP lors de la récupération de l'email: ",
                            status.text.as_str(),
                        ),
                    )
                }
            },
        }
    }

    /// The request that stores `email` as the email address.
    pub fn save_email_request(&self, email: &str) -> (request: Request)
        ensures
            request@ == (RequestModel {
                method: Method::Post,
                url: endpoint("/changeMail"@),
                json: Some(seq![("email"@, email@)]),
            }),
    {
        let mut fields: Vec<(String, String)> = Vec::new();
        fields.push((String::from_str("email"), String::from_str(email)));
        assert(fields.deep_view() =~= seq![("email"@, email@)]);
        Request {
            method: Method::Post,
            url: joined(API_BASE_URL, "/changeMail"),
            json: Some(fields),
        }
    }

    /// Whether `reply` says that the email address was stored.
    pub fn save_email(&self, reply: Reply<()>) -> (r: Result<(), String>)
        ensures
            unit_result(r) == acknowledged(reply),
    {
        Self::acknowledgement(reply)
    }

    /// The key of the stored credential that goes by `display_name`, looked up in what
    /// `reply` brings of the stored credentials.
    pub fn locate_service(
        &self,
        display_name: &str,
        reply: Reply<Result<Vec<(String, SavedPassword)>, String>>,
    ) -> (r: Result<String, String>)
        ensures
            match fetched_data(reply) {
                Ok(entries) => match r {
                    Ok(url) => is_found(entries@, display_name@, Some(url@)),
                    Err(e) => is_found(entries@, display_name@, None) && e@ == not_found_error(
                        display_name@,
                    ),
                },
                Err(e) => text_result(r) == Err::<Seq<char>, Seq<char>>(e),
            },
    {
        match self.get_data(reply) {
            Ok(entries) => match self.find_service_url(&entries, display_name) {
                Some(url) => Ok(url),
                None => Err(joined("Service '", display_name).concat("' non trouvé")),
            },
            Err(e) => Err(e),
        }
    }

    /// The request for the credential stored under `service_url`.
    pub fn get_password_details_request(&self, service_url: &str) -> (request: Request)
        ensures
            request@ == (RequestModel {
                method: Method::Post,
                url: endpoint("/get-password"@),
                json: Some(seq![("service_URL"@, service_url@)]),
            }),
    {
        let mut fields: Vec<(String, String)> = Vec::new();
        fields.push((String::from_str("service_URL"), String::from_str(service_url)));
        assert(fields.deep_view() =~= seq![("service_URL"@, service_url@)]);
        Request {
            method: Method::Post,
            url: joined(API_BASE_URL, "/get-password"),
            json: Some(fields),
        }
    }

    /// The credential in the body `text`, of which the reader made `reading`.
    pub fn read_password_details(
        service_url: String,
        text: &str,
        reading: Result<Json, String>,
    ) -> (r: Result<(String, String, String), String>)
        ensures
            details_result(r) == password_details(service_url@, text@, reading_model(reading)),
    {
        match reading {
            Ok(json) => match json.text_member("service_password") {
                Some(password) => {
                    let email = match json.text_member("email") {
                        Some(email) => email,
                        None => String::new(),
                    };
                    Ok((service_url, password, email))
                },
                None => Err(joined("Format de réponse invalide: ", text)),
            },
            Err(e) => Err(
                joined("Erreur de décodage JSON: ", e.as_str()).concat(". Réponse: ").concat(text),
            ),
        }
    }

    /// The credential that `reply` brings for the service stored under `service_url`:
    /// that URL, the password and the email.
    pub fn get_password_details(&self, service_url: String, reply: Reply<Result<String, String>>)
        -> (r: Result<(String, String, String), String>)
        ensures
            details_result(r) == fetched_details(service_url@, reply),
    {
        match reply {
            Reply::Unreachable(e) => Err(joined("Erreur réseau: ", e.as_str())),
            Reply::Answered(status, body) => {
                if status.is_success() {
                    match body {
                        Ok(text) => {
                            let reading = Json::parse(text.as_str());
                            Self::read_password_details(service_url, text.as_str(), reading)
                        },
                        Err(e) => Err(
                            joined("Erreur lors de la lecture de la réponse: ", e.as_str()),
                        ),
                    }
                } else {
                    let head = joined("Erreur HTTP ", status.text.as_str());
                    match body {
                        Ok(text) => Err(head.concat(": ").concat(text.as_str())),
                        Err(_) => Err(head),
                    }
                }
            },
        }
    }

    /// The request that replaces what is stored under `service_url` by `password` and
    /// `email`. The endpoint is the one that stores a credential, and so is the body.
    pub fn update_password_request(&self, service_url: &str, password: &str, email: &str) -> (request:
        Request)
        ensures
            request@ == save_request(service_url@, password@, email@),
    {
        self.save_password_request(service_url, password, email)
    }

    /// Whether `reply` says that the credential was replaced.
    pub fn update_password(&self, reply: Reply<Option<String>>) -> (r: Result<(), String>)
        ensures
            unit_result(r) == updated(reply),
    {
        match reply {
            Reply::Unreachable(e) => Err(joined("Erreur réseau: ", e.as_str())),
            Reply::Answered(status, body) => {
                if status.is_success() {
                    Ok(())
                } else {
                    let head = joined("Erreur HTTP: ", status.text.as_str());
                    match body {
                        Some(text) => Err(head.concat(". Détails: ").concat(text.as_str())),
                        None => Err(head),
                    }
                }
            },
        }
    }
}

} // verus!
