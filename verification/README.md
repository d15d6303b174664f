# bits_core

The core of a live-auction platform, written in Verus.

- `src/ids.rs`: UUID-valued identifiers; fresh ones come from `uuid::Uuid::new_v4`.
- `src/data.rs`: bids, auctions, products, shows, comments.
- `src/event.rs`: the events that commands emit.
- `src/graphql.rs`: the `async_graphql` dynamic input and object types the commands declare.
- `src/commands/`: the bid, comment and create-product commands; each turns a
  request into events (`handle`) and recorded events into a result (`apply`),
  with the round-trip laws between the two.
- `src/entities/show.rs`: the `show` table's row, relations and their definitions.
- `app/`: serde, GraphQL-derive and thiserror forms of the types, and the
  entry points that dispatch events through a backend.
