//! A client facade for the Telegram Bot API: a shared handle that owns the
//! bot token and a connector, and a per-call dispatch machine that binds a
//! typed request to one HTTP exchange and back to a typed response.
pub mod api;
pub mod dispatch;
pub mod errors;
pub mod runs;
pub mod stream;
pub mod wire;

pub use api::{Api, ApiView, DefaultConnector};
pub use dispatch::{Action, Dispatch, DispatchView, Event, Phase};
pub use errors::ApiError;
pub use stream::UpdatesStream;
