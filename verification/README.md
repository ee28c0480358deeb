# Neurobox API

A small service for Discord presence data. A bot connection to the Discord
gateway keeps the latest presence of every member in memory; an HTTP API and
a websocket serve those presences, together with key/value pairs that users
save for themselves with the `/kv` slash command.

## Layout

- `src/` is the library, verified with Verus:
  - `json.rs`: a plain model of JSON documents, the lookups the payloads need, and
    reading and writing JSON text with serde_json;
  - `models.rs`: users, activities, Spotify sessions, presences, avatar and album-art URLs;
  - `payload.rs`: reading presences, users and activities out of gateway payloads;
  - `gateway.rs`: the gateway session (hello, identify, dispatch, reconnect), dispatch planning, backoff;
  - `commands.rs`: reading `/kv` interactions and composing the replies;
  - `requests.rs`: the URLs, headers and bodies of the requests made to Discord;
  - `state.rs`: the in-memory store of presences, profiles and key/value pairs;
  - `socket.rs`: websocket subscriptions, sequence numbers and the initial state;
  - `config.rs`: the settings read from environment values;
  - `routes.rs`: the fixed JSON bodies of the HTTP API;
  - `strmap.rs`, `text.rs`: a string-keyed map and string helpers;
  - `laws.rs`: properties that span several operations.
- `tests/` runs the library on concrete values.
- `app/` is the server around the library: the async runtime, the gateway and
  HTTP clients, the axum routes, the websocket loop, the serde forms of the
  library's types, and the key/value file.

## Running

Set `DISCORD_TOKEN` (and optionally `HOST`, `PORT`, `KV_PATH`, `GUILD_ID`),
then run the server in `app/`.
