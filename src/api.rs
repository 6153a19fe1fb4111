use crate::stream::UpdatesStream;
use std::sync::Arc;
use vstd::prelude::*;

verus! {

/// What a handle holds: the bot token and the connector.
pub struct ApiView<C> {
    pub token: Seq<char>,
    pub connector: C,
}

struct ApiInner<C> {
    token: String,
    connector: C,
}

/// Main type for sending requests to the Telegram bot API.
///
/// Duplicates share one immutable record by reference count.
pub struct Api<C> {
    inner: Arc<ApiInner<C>>,
}

/// The connector picked when none is given: HTTPS to the Bot API server.
/// Choosing it does no I/O.
#[derive(Clone, Copy, Debug, PartialEq, Eq, Structural)]
pub struct DefaultConnector;

impl<C> View for Api<C> {
    type V = ApiView<C>;

    closed spec fn view(&self) -> ApiView<C> {
        ApiView { token: self.inner.token@, connector: self.inner.connector }
    }
}

impl<C> Clone for Api<C> {
    /// A second handle on the same record: the same token and connector.
    fn clone(&self) -> (r: Self)
        ensures
            r@ == self@,
    {
        Api { inner: Arc::clone(&self.inner) }
    }
}

impl Api<DefaultConnector> {
    /// Create a handle with the default connector.
    pub fn new(token: &str) -> (r: Api<DefaultConnector>)
        ensures
            r@.token == token@,
            r@.connector == DefaultConnector,
    {
        Api::with_connector(token, DefaultConnector)
    }
}

impl<C> Api<C> {
    /// Create a handle that owns the given connector.
    pub fn with_connector(token: &str, connector: C) -> (r: Api<C>)
        ensures
            r@.token == token@,
            r@.connector == connector,
    {
        Api { inner: Arc::new(ApiInner { token: token.to_owned(), connector }) }
    }

    /// The bot token, handed to the connector with each wire request.
    pub fn token(&self) -> (r: &str)
        ensures
            r@ == self@.token,
    {
        self.inner.token.as_str()
    }

    /// Create a stream of the updates that the server pushes. The stream
    /// holds a duplicate of this handle.
    pub fn stream(&self) -> (r: UpdatesStream<C>)
        ensures
            r.api_spec()@ == self@,
            r.last_update_spec() == 0,
    {
        UpdatesStream::new(self)
    }

    /// The connector that performs the exchanges.
    pub fn connector(&self) -> (r: &C)
        ensures
            *r == self@.connector,
    {
        &self.inner.connector
    }
}

} // verus!
