//! Stand-ins for the AMQP endpoints of a client, for tests: each keeps what it
//! was given and answers from it.
use crate::messaging::{AmqpMessage, AmqpMessageBody, AmqpOutcome};
use crate::options::connection::AmqpConnectionOptions;
use crate::options::session::AmqpSessionOptions;
use crate::value::{AmqpOrderedMap, AmqpSymbol, AmqpValue};
use vstd::prelude::*;

verus! {

/// The message with an empty body and no sections.
pub open spec fn empty_message() -> AmqpMessage {
    AmqpMessage {
        body: AmqpMessageBody::Empty,
        header: None,
        application_properties: None,
        message_annotations: None,
        delivery_annotations: None,
        properties: None,
        footer: None,
    }
}

/// A delivery received from a stand-in receiver.
#[derive(Debug)]
pub struct MockAmqpDelivery {
    pub message: AmqpMessage,
    pub delivery_id: u32,
    pub delivery_tag: Vec<u8>,
    pub message_format: Option<u32>,
}

/// A delivery of `message` with the standard id 1, tag [1, 2, 3] and format 0.
pub open spec fn standard_delivery(d: MockAmqpDelivery, message: AmqpMessage) -> bool {
    &&& d.message == message
    &&& d.delivery_id == 1
    &&& d.delivery_tag@ == seq![1u8, 2u8, 3u8]
    &&& d.message_format == Some(0u32)
}

impl MockAmqpDelivery {
    /// A delivery of the empty message.
    pub fn new() -> (r: Self)
        ensures
            standard_delivery(r, empty_message()),
    {
        MockAmqpDelivery {
            message: AmqpMessage {
                body: AmqpMessageBody::Empty,
                header: None,
                application_properties: None,
                message_annotations: None,
                delivery_annotations: None,
                properties: None,
                footer: None,
            },
            delivery_id: 1,
            delivery_tag: vec![1, 2, 3],
            message_format: Some(0),
        }
    }

    /// A delivery of a message whose body is one data section holding `data`.
    pub fn new_with_data(data: Vec<u8>) -> (r: Self)
        ensures
            standard_delivery(
                r,
                AmqpMessage { body: r.message.body, ..empty_message() },
            ),
            r.message.body matches AmqpMessageBody::Binary(sections) && sections@.len() == 1
                && sections@[0]@ == data@,
    {
        let mut d = MockAmqpDelivery::new();
        d.message.body = AmqpMessageBody::from_binary(data);
        d
    }

    /// The same delivery with the id `id`.
    pub fn with_id(self, id: u32) -> (r: Self)
        ensures
            r == (MockAmqpDelivery { delivery_id: id, ..self }),
    {
        let mut d = self;
        d.delivery_id = id;
        d
    }

    /// The same delivery with the tag `tag`.
    pub fn with_tag(self, tag: Vec<u8>) -> (r: Self)
        ensures
            r == (MockAmqpDelivery { delivery_tag: tag, ..self }),
    {
        let mut d = self;
        d.delivery_tag = tag;
        d
    }

    /// The same delivery with the format `format`.
    pub fn with_format(self, format: Option<u32>) -> (r: Self)
        ensures
            r == (MockAmqpDelivery { message_format: format, ..self }),
    {
        let mut d = self;
        d.message_format = format;
        d
    }

    /// The delivered message.
    pub fn message(&self) -> (r: &AmqpMessage)
        ensures
            *r == self.message,
    {
        &self.message
    }

    /// The delivery's id.
    pub fn delivery_id(&self) -> (r: u32)
        ensures
            r == self.delivery_id,
    {
        self.delivery_id
    }

    /// The delivery's tag.
    pub fn delivery_tag(&self) -> (r: &Vec<u8>)
        ensures
            *r == self.delivery_tag,
    {
        &self.delivery_tag
    }

    /// The delivery's message format.
    pub fn message_format(&self) -> (r: &Option<u32>)
        ensures
            *r == self.message_format,
    {
        &self.message_format
    }

    /// The delivered message.
    pub fn into_message(self) -> (r: AmqpMessage)
        ensures
            r == self.message,
    {
        self.message
    }
}

impl Default for MockAmqpDelivery {
    fn default() -> (r: Self)
        ensures
            standard_delivery(r, empty_message()),
    {
        MockAmqpDelivery::new()
    }
}

/// A stand-in receiver: hands out the deliveries queued on it, first queued
/// first, and a delivery of the empty message when none is queued.
#[derive(Debug)]
pub struct MockAmqpReceiver {
    is_attached: bool,
    delivery_queue: Vec<MockAmqpDelivery>,
}

impl MockAmqpReceiver {
    /// Whether the receiver is attached.
    pub closed spec fn attached(&self) -> bool {
        self.is_attached
    }

    /// The deliveries queued, first to be handed out first.
    pub closed spec fn queue(&self) -> Seq<MockAmqpDelivery> {
        self.delivery_queue@
    }

    /// A detached receiver with nothing queued.
    pub fn new() -> (r: Self)
        ensures
            !r.attached(),
            r.queue() == Seq::<MockAmqpDelivery>::empty(),
    {
        MockAmqpReceiver { is_attached: false, delivery_queue: Vec::new() }
    }

    /// Whether the receiver is attached.
    pub fn is_attached(&self) -> (r: bool)
        ensures
            r == self.attached(),
    {
        self.is_attached
    }

    /// Attaches the receiver.
    pub fn attach(&mut self)
        ensures
            final(self).attached(),
            final(self).queue() == old(self).queue(),
    {
        self.is_attached = true;
    }

    /// Detaches the receiver.
    pub fn detach(&mut self)
        ensures
            !final(self).attached(),
            final(self).queue() == old(self).queue(),
    {
        self.is_attached = false;
    }

    /// Queues `delivery` behind those queued already.
    pub fn queue_delivery(&mut self, delivery: MockAmqpDelivery)
        ensures
            final(self).queue() == old(self).queue().push(delivery),
            final(self).attached() == old(self).attached(),
    {
        self.delivery_queue.push(delivery);
    }

    /// Queues a delivery of a message whose body is one data section holding
    /// `data`.
    pub fn queue_mock_delivery(&mut self, data: Vec<u8>)
        ensures
            final(self).queue().len() == old(self).queue().len() + 1,
            final(self).queue().drop_last() == old(self).queue(),
            final(self).queue().last().message.body matches AmqpMessageBody::Binary(sections)
                && sections@.len() == 1 && sections@[0]@ == data@,
            final(self).attached() == old(self).attached(),
    {
        let delivery = MockAmqpDelivery::new_with_data(data);
        self.queue_delivery(delivery);
    }

    /// Hands out the first queued delivery, or a delivery of the empty message
    /// when none is queued.
    pub fn receive_delivery(&mut self) -> (r: MockAmqpDelivery)
        ensures
            old(self).queue().len() > 0 ==> r == old(self).queue()[0] && final(self).queue()
                == old(self).queue().drop_first(),
            old(self).queue().len() == 0 ==> standard_delivery(r, empty_message())
                && final(self).queue() == old(self).queue(),
            final(self).attached() == old(self).attached(),
    {
        if self.delivery_queue.len() == 0 {
            MockAmqpDelivery::new()
        } else {
            self.delivery_queue.remove(0)
        }
    }
}

/// First in, first out: what a receiver hands out next is the first of what was
/// queued on it; where nothing was queued, the delivery just queued.
pub proof fn lemma_receive_after_queue(queue: Seq<MockAmqpDelivery>, delivery: MockAmqpDelivery)
    ensures
        queue.push(delivery).len() > 0,
        queue.len() > 0 ==> queue.push(delivery)[0] == queue[0],
        queue.len() == 0 ==> queue.push(delivery)[0] == delivery,
        queue.len() > 0 ==> queue.push(delivery).drop_first() == queue.drop_first().push(delivery),
{
    if queue.len() > 0 {
        assert(queue.push(delivery).drop_first() =~= queue.drop_first().push(delivery));
    }
}

/// A stand-in sender: keeps every message sent and answers each send with the
/// outcome set for it.
#[derive(Debug)]
pub struct MockAmqpSender {
    is_attached: bool,
    name: Option<String>,
    sent_messages: Vec<AmqpMessage>,
    message_size: Option<u64>,
    next_outcome: Option<AmqpOutcome>,
}

impl MockAmqpSender {
    /// Whether the sender is attached.
    pub closed spec fn attached(&self) -> bool {
        self.is_attached
    }

    /// The name the sender was attached under.
    pub closed spec fn name_of(&self) -> Option<String> {
        self.name
    }

    /// The messages sent, in order.
    pub closed spec fn sent(&self) -> Seq<AmqpMessage> {
        self.sent_messages@
    }

    /// The largest message size the sender reports.
    pub closed spec fn max_message_size_of(&self) -> Option<u64> {
        self.message_size
    }

    /// The outcome that answers the next send, where one is set.
    pub closed spec fn next_outcome_of(&self) -> Option<AmqpOutcome> {
        self.next_outcome
    }

    /// A detached sender that has sent nothing, reports a largest message size
    /// of 1024 and accepts what it is sent.
    pub fn new() -> (r: Self)
        ensures
            !r.attached(),
            r.name_of() is None,
            r.sent() == Seq::<AmqpMessage>::empty(),
            r.max_message_size_of() == Some(1024u64),
            r.next_outcome_of() == Some(AmqpOutcome::Accepted),
    {
        MockAmqpSender {
            is_attached: false,
            name: None,
            sent_messages: Vec::new(),
            message_size: Some(1024),
            next_outcome: Some(AmqpOutcome::Accepted),
        }
    }

    /// Whether the sender is attached.
    pub fn is_attached(&self) -> (r: bool)
        ensures
            r == self.attached(),
    {
        self.is_attached
    }

    /// Attaches the sender under `name`.
    pub fn attach(&mut self, name: String)
        ensures
            final(self).attached(),
            final(self).name_of() == Some(name),
            final(self).sent() == old(self).sent(),
            final(self).max_message_size_of() == old(self).max_message_size_of(),
            final(self).next_outcome_of() == old(self).next_outcome_of(),
    {
        self.is_attached = true;
        self.name = Some(name);
    }

    /// Detaches the sender.
    pub fn detach(&mut self)
        ensures
            !final(self).attached(),
            final(self).name_of() == old(self).name_of(),
            final(self).sent() == old(self).sent(),
            final(self).max_message_size_of() == old(self).max_message_size_of(),
            final(self).next_outcome_of() == old(self).next_outcome_of(),
    {
        self.is_attached = false;
    }

    /// The messages sent, in order.
    pub fn get_sent_messages(&self) -> (r: &Vec<AmqpMessage>)
        ensures
            r@ == self.sent(),
    {
        &self.sent_messages
    }

    /// Sets the largest message size the sender reports.
    pub fn set_max_message_size(&mut self, size: Option<u64>)
        ensures
            final(self).max_message_size_of() == size,
            final(self).attached() == old(self).attached(),
            final(self).name_of() == old(self).name_of(),
            final(self).sent() == old(self).sent(),
            final(self).next_outcome_of() == old(self).next_outcome_of(),
    {
        self.message_size = size;
    }

    /// The largest message size the sender reports.
    pub fn max_message_size(&self) -> (r: Option<u64>)
        ensures
            r == self.max_message_size_of(),
    {
        self.message_size
    }

    /// Sets the outcome that answers sends.
    pub fn set_next_outcome(&mut self, outcome: AmqpOutcome)
        ensures
            final(self).next_outcome_of() == Some(outcome),
            final(self).attached() == old(self).attached(),
            final(self).name_of() == old(self).name_of(),
            final(self).sent() == old(self).sent(),
            final(self).max_message_size_of() == old(self).max_message_size_of(),
    {
        self.next_outcome = Some(outcome);
    }

    /// Sends `message`: keeps it, and answers with the outcome set, or accepts it
    /// where none is set.
    pub fn send(&mut self, message: AmqpMessage) -> (r: AmqpOutcome)
        ensures
            final(self).sent() == old(self).sent().push(message),
            r == (match old(self).next_outcome_of() {
                Some(o) => o,
                None => AmqpOutcome::Accepted,
            }),
            final(self).attached() == old(self).attached(),
            final(self).name_of() == old(self).name_of(),
            final(self).max_message_size_of() == old(self).max_message_size_of(),
            final(self).next_outcome_of() == old(self).next_outcome_of(),
    {
        self.sent_messages.push(message);
        match self.next_outcome {
            Some(o) => o,
            None => AmqpOutcome::Accepted,
        }
    }
}

/// A stand-in connection: remembers whether it is open and what it was opened
/// with.
#[derive(Debug)]
pub struct MockAmqpConnection {
    is_open: bool,
    name: Option<String>,
    url: Option<String>,
    options: Option<AmqpConnectionOptions>,
}

impl MockAmqpConnection {
    /// Whether the connection is open.
    pub closed spec fn open_now(&self) -> bool {
        self.is_open
    }

    /// The name the connection was opened under.
    pub closed spec fn name_of(&self) -> Option<String> {
        self.name
    }

    /// The URL the connection was opened to.
    pub closed spec fn url_of(&self) -> Option<String> {
        self.url
    }

    /// The options the connection was opened with.
    pub closed spec fn options_of(&self) -> Option<AmqpConnectionOptions> {
        self.options
    }

    /// A connection that was never opened.
    pub fn new() -> (r: Self)
        ensures
            !r.open_now(),
            r.name_of() is None,
            r.url_of() is None,
            r.options_of() is None,
    {
        MockAmqpConnection { is_open: false, name: None, url: None, options: None }
    }

    /// Opens the connection under `name` to `url` with `options`.
    pub fn open(&mut self, name: String, url: String, options: Option<AmqpConnectionOptions>)
        ensures
            final(self).open_now(),
            final(self).name_of() == Some(name),
            final(self).url_of() == Some(url),
            final(self).options_of() == options,
    {
        self.is_open = true;
        self.name = Some(name);
        self.url = Some(url);
        self.options = options;
    }

    /// Closes the connection.
    pub fn close(&mut self)
        ensures
            !final(self).open_now(),
            final(self).name_of() == old(self).name_of(),
            final(self).url_of() == old(self).url_of(),
            final(self).options_of() == old(self).options_of(),
    {
        self.is_open = false;
    }

    /// Closes the connection with an error condition; the condition, its
    /// description and its information are not kept.
    pub fn close_with_error(
        &mut self,
        condition: AmqpSymbol,
        description: Option<String>,
        info: Option<AmqpOrderedMap<AmqpSymbol, AmqpValue>>,
    )
        ensures
            !final(self).open_now(),
            final(self).name_of() == old(self).name_of(),
            final(self).url_of() == old(self).url_of(),
            final(self).options_of() == old(self).options_of(),
    {
        self.is_open = false;
    }

    /// The options the connection was opened with.
    pub fn get_options(&self) -> (r: &Option<AmqpConnectionOptions>)
        ensures
            *r == self.options_of(),
    {
        &self.options
    }

    /// Whether the connection is open.
    pub fn is_open(&self) -> (r: bool)
        ensures
            r == self.open_now(),
    {
        self.is_open
    }

    /// The name the connection was opened under.
    pub fn get_name(&self) -> (r: &Option<String>)
        ensures
            *r == self.name_of(),
    {
        &self.name
    }

    /// The URL the connection was opened to.
    pub fn get_url(&self) -> (r: &Option<String>)
        ensures
            *r == self.url_of(),
    {
        &self.url
    }
}

/// One path authorized through a stand-in claims-based-security client: the
/// path, the token type, the secret and the expiry in seconds since the epoch.
pub type AuthorizedPath = (String, Option<String>, String, i64);

/// A stand-in claims-based-security client: keeps the paths it authorized.
#[derive(Debug)]
pub struct MockAmqpClaimsBasedSecurity {
    is_attached: bool,
    authorized_paths: Vec<AuthorizedPath>,
}

impl MockAmqpClaimsBasedSecurity {
    /// Whether the client is attached.
    pub closed spec fn attached(&self) -> bool {
        self.is_attached
    }

    /// The paths authorized, in order.
    pub closed spec fn authorized(&self) -> Seq<AuthorizedPath> {
        self.authorized_paths@
    }

    /// A detached client that authorized nothing.
    pub fn new() -> (r: Self)
        ensures
            !r.attached(),
            r.authorized() == Seq::<AuthorizedPath>::empty(),
    {
        MockAmqpClaimsBasedSecurity { is_attached: false, authorized_paths: Vec::new() }
    }

    /// Whether the client is attached.
    pub fn is_attached(&self) -> (r: bool)
        ensures
            r == self.attached(),
    {
        self.is_attached
    }

    /// Attaches the client.
    pub fn attach(&mut self)
        ensures
            final(self).attached(),
            final(self).authorized() == old(self).authorized(),
    {
        self.is_attached = true;
    }

    /// Detaches the client.
    pub fn detach(&mut self)
        ensures
            !final(self).attached(),
            final(self).authorized() == old(self).authorized(),
    {
        self.is_attached = false;
    }

    /// Authorizes `path` with `secret` until `expires_on`.
    pub fn authorize_path(
        &mut self,
        path: String,
        token_type: Option<String>,
        secret: String,
        expires_on: i64,
    )
        ensures
            final(self).authorized() == old(self).authorized().push(
                (path, token_type, secret, expires_on),
            ),
            final(self).attached() == old(self).attached(),
    {
        self.authorized_paths.push((path, token_type, secret, expires_on));
    }

    /// The paths authorized, in order.
    pub fn get_authorized_paths(&self) -> (r: &Vec<AuthorizedPath>)
        ensures
            r@ == self.authorized(),
    {
        &self.authorized_paths
    }

    /// Forgets the paths authorized.
    pub fn clear_authorized_paths(&mut self)
        ensures
            final(self).authorized() == Seq::<AuthorizedPath>::empty(),
            final(self).attached() == old(self).attached(),
    {
        self.authorized_paths.clear();
    }
}

/// One call made on a stand-in management client: the operation and the
/// application properties.
pub type CallRecord = (String, AmqpOrderedMap<String, AmqpValue>);

/// A stand-in management client: keeps the calls made on it and answers each
/// with the response set.
#[derive(Debug)]
pub struct MockAmqpManagement {
    is_attached: bool,
    calls: Vec<CallRecord>,
    response_map: AmqpOrderedMap<String, AmqpValue>,
}

impl MockAmqpManagement {
    /// Whether the client is attached.
    pub closed spec fn attached(&self) -> bool {
        self.is_attached
    }

    /// The calls made, in order.
    pub closed spec fn calls_of(&self) -> Seq<CallRecord> {
        self.calls@
    }

    /// The response that answers calls.
    pub closed spec fn response_of(&self) -> Seq<(String, AmqpValue)> {
        self.response_map@
    }

    /// A detached client with no calls and an empty response.
    pub fn new() -> (r: Self)
        ensures
            !r.attached(),
            r.calls_of() == Seq::<CallRecord>::empty(),
            r.response_of() == Seq::<(String, AmqpValue)>::empty(),
    {
        MockAmqpManagement {
            is_attached: false,
            calls: Vec::new(),
            response_map: AmqpOrderedMap::new(),
        }
    }

    /// Whether the client is attached.
    pub fn is_attached(&self) -> (r: bool)
        ensures
            r == self.attached(),
    {
        self.is_attached
    }

    /// Attaches the client.
    pub fn attach(&mut self)
        ensures
            final(self).attached(),
            final(self).calls_of() == old(self).calls_of(),
            final(self).response_of() == old(self).response_of(),
    {
        self.is_attached = true;
    }

    /// Detaches the client.
    pub fn detach(&mut self)
        ensures
            !final(self).attached(),
            final(self).calls_of() == old(self).calls_of(),
            final(self).response_of() == old(self).response_of(),
    {
        self.is_attached = false;
    }

    /// The calls made, in order.
    pub fn get_calls(&self) -> (r: &Vec<CallRecord>)
        ensures
            r@ == self.calls_of(),
    {
        &self.calls
    }

    /// Sets the response that answers calls.
    pub fn set_response(&mut self, response: AmqpOrderedMap<String, AmqpValue>)
        ensures
            final(self).response_of() == response@,
            final(self).calls_of() == old(self).calls_of(),
            final(self).attached() == old(self).attached(),
    {
        self.response_map = response;
    }

    /// Makes a call of `operation_type` with `application_properties`: keeps it,
    /// and answers with the response set.
    pub fn call(
        &mut self,
        operation_type: String,
        application_properties: AmqpOrderedMap<String, AmqpValue>,
    ) -> (r: &AmqpOrderedMap<String, AmqpValue>)
        ensures
            final(self).calls_of() == old(self).calls_of().push(
                (operation_type, application_properties),
            ),
            final(self).response_of() == old(self).response_of(),
            final(self).attached() == old(self).attached(),
            r@ == old(self).response_of(),
    {
        self.calls.push((operation_type, application_properties));
        &self.response_map
    }
}

/// A stand-in session: remembers whether it has begun.
#[derive(Debug)]
pub struct MockAmqpSession {
    is_begun: bool,
    options: Option<AmqpSessionOptions>,
}

impl MockAmqpSession {
    /// Whether the session has begun and not ended.
    pub closed spec fn begun(&self) -> bool {
        self.is_begun
    }

    /// The options the session was begun with.
    pub closed spec fn options_of(&self) -> Option<AmqpSessionOptions> {
        self.options
    }

    /// A session that has not begun.
    pub fn new() -> (r: Self)
        ensures
            !r.begun(),
            r.options_of() is None,
    {
        MockAmqpSession { is_begun: false, options: None }
    }

    /// Begins the session with `options`.
    pub fn begin(&mut self, options: Option<AmqpSessionOptions>)
        ensures
            final(self).begun(),
            final(self).options_of() == options,
    {
        self.is_begun = true;
        self.options = options;
    }

    /// Ends the session.
    pub fn end(&mut self)
        ensures
            !final(self).begun(),
            final(self).options_of() == old(self).options_of(),
    {
        self.is_begun = false;
    }

    /// The options the session was begun with.
    pub fn get_options(&self) -> (r: &Option<AmqpSessionOptions>)
        ensures
            *r == self.options_of(),
    {
        &self.options
    }

    /// Whether the session has begun and not ended.
    pub fn is_begun(&self) -> (r: bool)
        ensures
            r == self.begun(),
    {
        self.is_begun
    }
}

} // verus!
