//! The state of a producer client and the decisions it takes: when it needs a
//! connection, a token for a path or a management client, and what it asks the
//! management client.
use super::{eventhub_url, eventhub_url_text, partition_request_properties, ProducerClientOptions};
use crate::connection_manager::{is_hyphenated_v4_uuid, new_connection_id, AuthorizationScopes};
use crate::error::{ErrorKind, EventHubsError};
use crate::management::{lemma_partition_call_names_partition, management_request, ManagementRequest};
use crate::value::{AmqpOrderedMap, AmqpValue};
use vstd::prelude::*;

verus! {

/// The state of a producer client of one Event Hub.
///
/// `C` is the connection once opened, `M` the management client once created,
/// `T` an authentication token.
pub struct ProducerClient<C, M, T> {
    options: ProducerClientOptions,
    fully_qualified_namespace: String,
    eventhub: String,
    url: String,
    connection: Option<C>,
    authorization_scopes: AuthorizationScopes<T>,
    management: Option<M>,
}

impl<C, M, T> ProducerClient<C, M, T> {
    /// The options the client was made with.
    pub closed spec fn options_of(&self) -> ProducerClientOptions {
        self.options
    }

    /// The namespace of the Event Hub.
    pub closed spec fn namespace_of(&self) -> Seq<char> {
        self.fully_qualified_namespace@
    }

    /// The name of the Event Hub.
    pub closed spec fn eventhub_of(&self) -> Seq<char> {
        self.eventhub@
    }

    /// The URL of the Event Hub.
    pub closed spec fn url_of(&self) -> Seq<char> {
        self.url@
    }

    /// The connection, once opened.
    pub closed spec fn connection_of(&self) -> Option<C> {
        self.connection
    }

    /// The tokens held, by path.
    pub closed spec fn scopes_of(&self) -> Map<Seq<char>, T> {
        self.authorization_scopes@
    }

    /// The management client, once created.
    pub closed spec fn management_of(&self) -> Option<M> {
        self.management
    }

    /// A client of the Event Hub `eventhub` in the namespace
    /// `fully_qualified_namespace`, with no connection, tokens or management
    /// client yet.
    pub fn new(fully_qualified_namespace: String, eventhub: String, options: ProducerClientOptions) -> (r:
        Self)
        ensures
            r.options_of() == options,
            r.namespace_of() == fully_qualified_namespace@,
            r.eventhub_of() == eventhub@,
            r.url_of() == eventhub_url_text(fully_qualified_namespace@, eventhub@),
            r.connection_of() is None,
            r.scopes_of() == Map::<Seq<char>, T>::empty(),
            r.management_of() is None,
    {
        let url = eventhub_url(fully_qualified_namespace.as_str(), eventhub.as_str());
        ProducerClient {
            options,
            fully_qualified_namespace,
            eventhub,
            url,
            connection: None,
            authorization_scopes: AuthorizationScopes::new(),
            management: None,
        }
    }

    /// The options the client was made with.
    pub fn options(&self) -> (r: &ProducerClientOptions)
        ensures
            *r == self.options_of(),
    {
        &self.options
    }

    /// The URL of the Event Hub.
    pub fn url(&self) -> (r: &String)
        ensures
            r@ == self.url_of(),
    {
        &self.url
    }

    /// The name of the Event Hub.
    pub fn eventhub(&self) -> (r: &String)
        ensures
            r@ == self.eventhub_of(),
    {
        &self.eventhub
    }

    /// The name the connection is opened under: the application id where one was
    /// given, a fresh random one otherwise.
    pub fn connection_name(&self) -> (r: String)
        ensures
            match self.options_of().application_id_of() {
                Some(id) => r@ == id@,
                None => is_hyphenated_v4_uuid(r@),
            },
    {
        match self.options.application_id() {
            Some(id) => id.clone(),
            None => new_connection_id(),
        }
    }

    /// Whether the connection has still to be opened.
    pub fn needs_connection(&self) -> (r: bool)
        ensures
            r == self.connection_of() is None,
    {
        self.connection.is_none()
    }

    /// Holds the connection just opened.
    pub fn install_connection(&mut self, connection: C)
        requires
            old(self).connection_of() is None,
        ensures
            final(self).connection_of() == Some(connection),
            final(self).scopes_of() == old(self).scopes_of(),
            final(self).management_of() == old(self).management_of(),
            final(self).url_of() == old(self).url_of(),
            final(self).eventhub_of() == old(self).eventhub_of(),
            final(self).options_of() == old(self).options_of(),
    {
        self.connection = Some(connection);
    }

    /// The connection, once opened.
    pub fn connection(&self) -> (r: Option<&C>)
        ensures
            match self.connection_of() {
                Some(c) => r == Some(&c),
                None => r is None,
            },
    {
        match &self.connection {
            Some(c) => Some(c),
            None => None,
        }
    }

    /// Whether `url` has to be authorized before it is used: an error of kind
    /// `MissingConnection` before the connection is opened; otherwise, whether no
    /// token is held for it yet.
    pub fn authorization_needed(&self, url: &String) -> (r: Result<bool, EventHubsError>)
        ensures
            self.connection_of() is None ==> (r matches Err(e) && e.kind_of()
                == ErrorKind::MissingConnection),
            self.connection_of() is Some ==> r == Ok::<bool, EventHubsError>(
                !self.scopes_of().contains_key(url@),
            ),
    {
        if self.connection.is_none() {
            return Err(EventHubsError::new(ErrorKind::MissingConnection));
        }
        Ok(!self.authorization_scopes.contains_key(url))
    }

    /// Holds `token` for `url`, which was just authorized with it.
    pub fn record_token(&mut self, url: String, token: T)
        ensures
            final(self).scopes_of() == old(self).scopes_of().insert(url@, token),
            final(self).connection_of() == old(self).connection_of(),
            final(self).management_of() == old(self).management_of(),
            final(self).url_of() == old(self).url_of(),
            final(self).eventhub_of() == old(self).eventhub_of(),
            final(self).options_of() == old(self).options_of(),
    {
        let _ = self.authorization_scopes.insert(url, token);
    }

    /// Whether the management client has still to be created: not where it
    /// exists; an error of kind `MissingConnection` where it does not and the
    /// connection is not opened.
    pub fn management_needed(&self) -> (r: Result<bool, EventHubsError>)
        ensures
            self.management_of() is Some ==> r == Ok::<bool, EventHubsError>(false),
            self.management_of() is None && self.connection_of() is None ==> (r matches Err(e)
                && e.kind_of() == ErrorKind::MissingConnection),
            self.management_of() is None && self.connection_of() is Some ==> r == Ok::<
                bool,
                EventHubsError,
            >(true),
    {
        if self.management.is_some() {
            return Ok(false);
        }
        if self.connection.is_none() {
            return Err(EventHubsError::new(ErrorKind::MissingConnection));
        }
        Ok(true)
    }

    /// Holds the management client just created.
    pub fn install_management(&mut self, management: M)
        requires
            old(self).management_of() is None,
        ensures
            final(self).management_of() == Some(management),
            final(self).connection_of() == old(self).connection_of(),
            final(self).scopes_of() == old(self).scopes_of(),
            final(self).url_of() == old(self).url_of(),
            final(self).eventhub_of() == old(self).eventhub_of(),
            final(self).options_of() == old(self).options_of(),
    {
        self.management = Some(management);
    }

    /// The management client, once created.
    pub fn management(&self) -> (r: Option<&M>)
        ensures
            match self.management_of() {
                Some(m) => r == Some(&m),
                None => r is None,
            },
    {
        match &self.management {
            Some(m) => Some(m),
            None => None,
        }
    }

    /// The application properties of the management call that reads the
    /// partition `partition_id` of the client's Event Hub.
    pub fn partition_call_properties(&self, partition_id: String) -> (r: AmqpOrderedMap<
        String,
        AmqpValue,
    >)
        ensures
            r@.len() == 2,
            r@[0].0@ == "partition_id"@ && r@[0].1 == AmqpValue::String(partition_id),
            r@[1].0@ == "name"@,
            r@[1].1 matches AmqpValue::String(n) && n@ == self.eventhub_of(),
    {
        partition_request_properties(partition_id, self.eventhub.clone())
    }
    /// The request that reading the Event Hub's properties sends: a read of the
    /// Event Hub by its name, as an entity of type `com.microsoft:eventhub`.
    pub fn eventhub_properties_request(&self) -> (r: ManagementRequest)
        ensures
            r matches ManagementRequest::ReadByName { name, entity_type } && name@ == self.eventhub_of()
                && entity_type@ == "com.microsoft:eventhub"@,
    {
        management_request("com.microsoft:eventhub".to_string(), self.eventhub.clone(), None)
    }

    /// The request that reading the properties of the partition `partition_id`
    /// sends: a read of that partition of the Event Hub.
    pub fn partition_properties_request(&self, partition_id: String) -> (r: ManagementRequest)
        ensures
            r matches ManagementRequest::Partition(q) && q.eventhub_of()@ == self.eventhub_of()
                && q.partition_id_of() == partition_id,
    {
        let properties = self.partition_call_properties(partition_id);
        proof {
            lemma_partition_call_names_partition(properties, partition_id);
        }
        management_request("com.microsoft:eventhub".to_string(), self.eventhub.clone(), Some(properties))
    }

    /// Hands out the connection for use, leaving none held until it is
    /// installed again.
    pub fn take_connection(&mut self) -> (r: Option<C>)
        ensures
            r == old(self).connection_of(),
            final(self).connection_of() is None,
            final(self).scopes_of() == old(self).scopes_of(),
            final(self).management_of() == old(self).management_of(),
            final(self).url_of() == old(self).url_of(),
            final(self).eventhub_of() == old(self).eventhub_of(),
            final(self).options_of() == old(self).options_of(),
    {
        let mut connection: Option<C> = None;
        std::mem::swap(&mut connection, &mut self.connection);
        connection
    }

    /// Hands out the management client for use, leaving none held until it is
    /// installed again.
    pub fn take_management(&mut self) -> (r: Option<M>)
        ensures
            r == old(self).management_of(),
            final(self).management_of() is None,
            final(self).scopes_of() == old(self).scopes_of(),
            final(self).connection_of() == old(self).connection_of(),
            final(self).url_of() == old(self).url_of(),
            final(self).eventhub_of() == old(self).eventhub_of(),
            final(self).options_of() == old(self).options_of(),
    {
        let mut management: Option<M> = None;
        std::mem::swap(&mut management, &mut self.management);
        management
    }
}

} // verus!
