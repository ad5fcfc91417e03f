//! The logic of a small password-manager client, apart from its window and its
//! network.
//!
//! The client logs its user in with a passphrase and then lets them generate, store,
//! look up and change the credentials of services, all of which a backend keeps behind
//! a few HTTP endpoints. This library holds what the client decides and computes:
//!
//! - [`ui::app`]: the state of the application and what each event does to it;
//! - [`ui::screens`]: what each screen shows, as a value of [`ui::scene`];
//! - [`ui::style`]: the looks of buttons and containers;
//! - [`api::client`]: the request for each operation and the meaning of each reply;
//! - [`api::service`]: the name under which a service is shown and found again;
//! - [`api::json`]: the JSON documents that replies carry;
//! - [`text`]: the operations on characters that the above rest on.
//!
//! Nothing here draws, sends or waits. The caller sends the requests described here
//! and hands back what arrived, draws the screens described here and hands back what
//! the user did.

pub mod api;
pub mod text;
pub mod ui;
