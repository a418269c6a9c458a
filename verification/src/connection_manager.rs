//! The state of the connection to an Event Hubs namespace: its name, the
//! connection once opened, and the authentication token held for each path.
use crate::entries::{entries_to_map, find_entry, names_unique, replace_entry};
use crate::error::{ErrorKind, EventHubsError};
use crate::value::{AmqpSymbol, AmqpValue};
use vstd::prelude::*;

verus! {

/// The authentication tokens held, by the path that each one authorizes.
#[derive(Debug)]
pub struct AuthorizationScopes<T> {
    entries: Vec<(String, T)>,
}

impl<T> View for AuthorizationScopes<T> {
    type V = Map<Seq<char>, T>;

    closed spec fn view(&self) -> Map<Seq<char>, T> {
        entries_to_map(self.entries@)
    }
}

impl<T> AuthorizationScopes<T> {
    #[verifier::type_invariant]
    closed spec fn wf(self) -> bool {
        names_unique(self.entries@)
    }

    /// No tokens.
    pub fn new() -> (r: Self)
        ensures
            r@ == Map::<Seq<char>, T>::empty(),
    {
        let r = AuthorizationScopes { entries: Vec::new() };
        proof {
            assert(entries_to_map(r.entries@) =~= Map::<Seq<char>, T>::empty());
        }
        r
    }

    /// Whether a token is held for `path`.
    pub fn contains_key(&self, path: &String) -> (r: bool)
        ensures
            r == self@.contains_key(path@),
    {
        proof {
            use_type_invariant(self);
        }
        find_entry(&self.entries, path).is_some()
    }

    /// The token held for `path`.
    pub fn get(&self, path: &String) -> (r: Option<&T>)
        ensures
            r == (if self@.contains_key(path@) {
                Some(&self@[path@])
            } else {
                None
            }),
    {
        proof {
            use_type_invariant(self);
        }
        find_entry(&self.entries, path)
    }

    /// Holds `token` for `path` and hands back the token held for it before, if any.
    pub fn insert(&mut self, path: String, token: T) -> (r: Option<T>)
        ensures
            final(self)@ == old(self)@.insert(path@, token),
            r == (if old(self)@.contains_key(path@) {
                Some(old(self)@[path@])
            } else {
                None
            }),
    {
        proof {
            use_type_invariant(&*self);
        }
        let mut entries: Vec<(String, T)> = Vec::new();
        std::mem::swap(&mut entries, &mut self.entries);
        let previous = replace_entry(&mut entries, path, token);
        self.entries = entries;
        previous
    }
}

/// What authorizing a path takes: nothing where a token is held for it already,
/// which is the answer; otherwise a session, a fresh token and its recording.
#[derive(Debug)]
pub enum AuthorizeAction<'a, T> {
    /// A token is held for the path: this one.
    Held(&'a T),
    /// No token is held for the path: one has to be fetched and put.
    Fetch,
}

/// `c` is a lowercase hexadecimal digit.
pub open spec fn is_lower_hex_digit(c: char) -> bool {
    ('0' <= c && c <= '9') || ('a' <= c && c <= 'f')
}

/// `s` is a UUID of version 4 in hyphenated lowercase form: 36 characters,
/// hyphens at positions 8, 13, 18 and 23, hexadecimal digits elsewhere, the
/// version digit `4` at position 14, and one of `8`, `9`, `a`, `b` (the RFC 4122
/// variant) at position 19.
pub open spec fn is_hyphenated_v4_uuid(s: Seq<char>) -> bool {
    &&& s.len() == 36
    &&& forall|i: int|
        0 <= i < 36 ==> if i == 8 || i == 13 || i == 18 || i == 23 {
            #[trigger] s[i] == '-'
        } else {
            is_lower_hex_digit(s[i])
        }
    &&& s[14] == '4'
    &&& (s[19] == '8' || s[19] == '9' || s[19] == 'a' || s[19] == 'b')
}

/// A fresh random name for a connection: a hyphenated UUID of version 4.
///
/// Calls `uuid::Uuid::new_v4` and formats the result with `to_string`, which
/// writes the hyphenated lowercase form. What is stated is what holds of every
/// UUID that `new_v4` can give, formatted so: 36 characters, hyphens at 8, 13,
/// 18 and 23, lowercase hexadecimal digits elsewhere, version `4` and the RFC
/// 4122 variant. Which UUID comes out is chance, and nothing is said of it; nor
/// is the panic of `new_v4` where the system gives it no random bytes, which no
/// argument decides.
#[verifier::external_body]
pub(crate) fn new_connection_id() -> (r: String)
    ensures
        is_hyphenated_v4_uuid(r@),
{
    uuid::Uuid::new_v4().to_string()
}

/// The state of the (single) connection to an Event Hubs namespace.
///
/// `C` is the connection once opened; `T` an authentication token.
pub struct ConnectionManager<C, T> {
    url: String,
    application_id: Option<String>,
    custom_endpoint: Option<String>,
    connection: Option<C>,
    authorization_scopes: AuthorizationScopes<T>,
    connection_name: String,
}

impl<C, T> ConnectionManager<C, T> {
    /// The namespace's URL.
    pub closed spec fn url_of(&self) -> Seq<char> {
        self.url@
    }

    /// The application id the manager was made with.
    pub closed spec fn application_id_of(&self) -> Option<String> {
        self.application_id
    }

    /// The custom endpoint the manager was made with.
    pub closed spec fn custom_endpoint_of(&self) -> Option<String> {
        self.custom_endpoint
    }

    /// The connection, once one is held.
    pub closed spec fn connection_of(&self) -> Option<C> {
        self.connection
    }

    /// The tokens held, by path.
    pub closed spec fn scopes_of(&self) -> Map<Seq<char>, T> {
        self.authorization_scopes@
    }

    /// The name the connection is opened under.
    pub closed spec fn connection_name_of(&self) -> Seq<char> {
        self.connection_name@
    }

    /// A manager for the namespace at `url`, with no connection and no tokens. The
    /// connection is named after the application where there is one, and gets a
    /// fresh random name otherwise.
    pub fn new(url: String, application_id: Option<String>, custom_endpoint: Option<String>) -> (r:
        Self)
        ensures
            r.url_of() == url@,
            r.application_id_of() == application_id,
            r.custom_endpoint_of() == custom_endpoint,
            r.connection_of() is None,
            r.scopes_of() == Map::<Seq<char>, T>::empty(),
            match application_id {
                Some(id) => r.connection_name_of() == id@,
                None => is_hyphenated_v4_uuid(r.connection_name_of()),
            },
    {
        let connection_name = match &application_id {
            Some(id) => id.clone(),
            None => new_connection_id(),
        };
        ConnectionManager {
            url,
            application_id,
            custom_endpoint,
            connection: None,
            authorization_scopes: AuthorizationScopes::new(),
            connection_name,
        }
    }

    /// The namespace's URL.
    pub fn url(&self) -> (r: &String)
        ensures
            r@ == self.url_of(),
    {
        &self.url
    }

    /// The application id the manager was made with.
    pub fn application_id(&self) -> (r: &Option<String>)
        ensures
            *r == self.application_id_of(),
    {
        &self.application_id
    }

    /// The custom endpoint the manager was made with.
    pub fn custom_endpoint(&self) -> (r: &Option<String>)
        ensures
            *r == self.custom_endpoint_of(),
    {
        &self.custom_endpoint
    }

    /// The name the connection is opened under.
    pub fn get_connection_id(&self) -> (r: &str)
        ensures
            r@ == self.connection_name_of(),
    {
        self.connection_name.as_str()
    }

    /// Whether no connection is held yet.
    pub fn needs_connection(&self) -> (r: bool)
        ensures
            r == self.connection_of() is None,
    {
        self.connection.is_none()
    }

    /// Holds `connection`, unless a connection is held already: the first
    /// connection stays.
    pub fn install_connection(&mut self, connection: C)
        ensures
            final(self).connection_of() == (match old(self).connection_of() {
                Some(c) => Some(c),
                None => Some(connection),
            }),
            final(self).url_of() == old(self).url_of(),
            final(self).application_id_of() == old(self).application_id_of(),
            final(self).custom_endpoint_of() == old(self).custom_endpoint_of(),
            final(self).scopes_of() == old(self).scopes_of(),
            final(self).connection_name_of() == old(self).connection_name_of(),
    {
        if self.connection.is_none() {
            self.connection = Some(connection);
        }
    }

    /// The connection; an error of kind `MissingConnection` where none is held.
    pub fn get_connection(&self) -> (r: Result<&C, EventHubsError>)
        ensures
            match self.connection_of() {
                Some(c) => r == Ok::<&C, EventHubsError>(&c),
                None => r matches Err(e) && e.kind_of() == ErrorKind::MissingConnection,
            },
    {
        match &self.connection {
            Some(c) => Ok(c),
            None => Err(EventHubsError::new(ErrorKind::MissingConnection)),
        }
    }

    /// The token held for `path`, if any.
    pub open spec fn held_for(&self, path: Seq<char>) -> Option<T> {
        if self.scopes_of().contains_key(path) {
            Some(self.scopes_of()[path])
        } else {
            None
        }
    }

    /// What authorizing `path` takes: where a token is held for it, that token is
    /// the answer, with no token fetched, no session begun and nothing changed;
    /// otherwise a token has to be fetched.
    pub fn authorize_path(&self, path: &String) -> (r: AuthorizeAction<'_, T>)
        ensures
            match r {
                AuthorizeAction::Held(t) => self.held_for(path@) == Some(*t),
                AuthorizeAction::Fetch => self.held_for(path@) is None,
            },
    {
        match self.authorization_scopes.get(path) {
            Some(t) => AuthorizeAction::Held(t),
            None => AuthorizeAction::Fetch,
        }
    }

    /// Whether `path` still has to be authorized: no token is held for it.
    pub fn authorization_needed(&self, path: &String) -> (r: bool)
        ensures
            r == !self.scopes_of().contains_key(path@),
    {
        !self.authorization_scopes.contains_key(path)
    }

    /// Holds `token` for `path`, which was just authorized with it. Where a token
    /// was held for `path` already, it is replaced and an error of kind
    /// `UnableToAddAuthenticationToken` is reported.
    pub fn record_authorization(&mut self, path: String, token: T) -> (r: Result<(), EventHubsError>)
        ensures
            final(self).scopes_of() == old(self).scopes_of().insert(path@, token),
            old(self).scopes_of().contains_key(path@) ==> (r matches Err(e) && e.kind_of()
                == ErrorKind::UnableToAddAuthenticationToken),
            !old(self).scopes_of().contains_key(path@) ==> r is Ok,
            final(self).connection_of() == old(self).connection_of(),
            final(self).url_of() == old(self).url_of(),
            final(self).application_id_of() == old(self).application_id_of(),
            final(self).custom_endpoint_of() == old(self).custom_endpoint_of(),
            final(self).connection_name_of() == old(self).connection_name_of(),
    {
        let present = self.authorization_scopes.insert(path, token);
        if present.is_some() {
            return Err(EventHubsError::new(ErrorKind::UnableToAddAuthenticationToken));
        }
        Ok(())
    }

    /// The token held for `path`; an error of kind `UnableToAddAuthenticationToken`
    /// where none is held.
    pub fn authorization(&self, path: &String) -> (r: Result<&T, EventHubsError>)
        ensures
            self.scopes_of().contains_key(path@) ==> r == Ok::<&T, EventHubsError>(
                &self.scopes_of()[path@],
            ),
            !self.scopes_of().contains_key(path@) ==> (r matches Err(e) && e.kind_of()
                == ErrorKind::UnableToAddAuthenticationToken),
    {
        match self.authorization_scopes.get(path) {
            Some(t) => Ok(t),
            None => Err(EventHubsError::new(ErrorKind::UnableToAddAuthenticationToken)),
        }
    }
}

/// Once `record_authorization` has held `token` for `path`, the path needs no
/// more authorizing, `authorization` gives back that token, and every other
/// path keeps the token it had, or its lack of one.
pub proof fn lemma_authorization_after_record<C, T>(
    before: ConnectionManager<C, T>,
    after: ConnectionManager<C, T>,
    path: Seq<char>,
    token: T,
)
    requires
        after.scopes_of() == before.scopes_of().insert(path, token),
    ensures
        after.scopes_of().contains_key(path),
        after.scopes_of()[path] == token,
        forall|other: Seq<char>|
            other != path ==> (#[trigger] after.scopes_of().contains_key(other)
                == before.scopes_of().contains_key(other)),
        forall|other: Seq<char>|
            other != path && before.scopes_of().contains_key(other) ==> #[trigger] after.scopes_of()[other]
                == before.scopes_of()[other],
{
}

/// Once a path has been authorized (its token recorded, whether or not one was
/// held before), authorizing it again answers that same token: `authorize_path`
/// can only give `Held` of it, and no token is fetched.
pub proof fn lemma_authorize_path_after_record<C, T>(
    before: ConnectionManager<C, T>,
    after: ConnectionManager<C, T>,
    path: Seq<char>,
    token: T,
)
    requires
        after.scopes_of() == before.scopes_of().insert(path, token),
    ensures
        after.held_for(path) == Some(token),
{
}

/// The properties that a connection is opened with, in this order: the user
/// agent, the package's version, the platform and the product, each under its
/// symbol and as a string value.
pub fn connection_properties(
    user_agent: String,
    version: String,
    platform: String,
    product: String,
) -> (r: Vec<(AmqpSymbol, AmqpValue)>)
    ensures
        r@.len() == 4,
        r@[0].0.0@ == "user-agent"@ && r@[0].1 == AmqpValue::String(user_agent),
        r@[1].0.0@ == "version"@ && r@[1].1 == AmqpValue::String(version),
        r@[2].0.0@ == "platform"@ && r@[2].1 == AmqpValue::String(platform),
        r@[3].0.0@ == "product"@ && r@[3].1 == AmqpValue::String(product),
{
    let mut properties: Vec<(AmqpSymbol, AmqpValue)> = Vec::new();
    properties.push((AmqpSymbol::from_text("user-agent"), AmqpValue::String(user_agent)));
    properties.push((AmqpSymbol::from_text("version"), AmqpValue::String(version)));
    properties.push((AmqpSymbol::from_text("platform"), AmqpValue::String(platform)));
    properties.push((AmqpSymbol::from_text("product"), AmqpValue::String(product)));
    properties
}

} // verus!
