# azure_messaging_eventhubs

The client-side logic of Azure Event Hubs and its companions, written in Verus
and verified: each operation's contract states what it computes and is proved,
except where an outside call decides the result. A connection's random name is
stated only as far as every version 4 UUID allows, and what is decided by I/O
lives in `app/`.

Layout of `src/`:

- `value`: AMQP values, symbols, timestamps and the insertion-ordered map
  (`AmqpOrderedMap`) with its laws, and the conversions to and from values.
- `messaging`: AMQP sources, targets, headers, properties and messages, with
  their builders.
- `models`: Event Hub and partition properties, and `EventData` with its
  conversion to and from messages.
- `producer`: the producer client's options and URL, the reading of management
  responses, and (in `producer::client`) the decisions the client takes.
- `management`: the requests the management client sends.
- `connection_manager`: the connection's name and the authentication tokens
  held by path.
- `options`: options of connections, sessions and senders.
- `telemetry`: span kinds and statuses, span attributes, what a span of the
  `tracing` crate records of them, and their OpenTelemetry form.
- `subclient`: the rule for subclient constructors.
- `mock`: stand-ins for AMQP endpoints, for tests.
- `mgmt`: resource models of two management APIs.
- `entries`, `error`: named entries and the errors of the client logic.

`app/` holds what the library cannot: AMQP I/O over `fe2o3-amqp`, spans of
`tracing` and OpenTelemetry, token-stream parsing with `syn`, and the serde
forms of the management models.
