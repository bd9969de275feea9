# tetra_server

The server of a real-time versus game: lobby, rooms, random matches, match control and the relay of
match data between players, over WebRTC data channels.

- `src/` is the library, verified with Verus. It holds the logic of the server and does no I/O.
  - `ids`, `lists`: identifiers and the lists that rooms keep
  - `room`, `game`: rooms and the state of the server, with the operations on them
  - `model`, `wellformed`, `laws`: what the state stands for, what holds of it at all times, and what
    holds of the operations taken together
  - `codec`, `payload`: binary payloads, frames and the messages of the JSON layer
  - `connection`: frames, requests, and lost connections
  - `signaling`, `config`: the session before the data channels are up, and the environment
- `app/` is the program around it: sockets, peer connections, JSON text, logging.
- `tests/` run the library.

Contracts are stated over `GameView` (`src/model.rs`): each operation says which view it makes of the
view before it, and what it returns. `request_effect` (`src/connection/reliable.rs`) says what each
request does, and `frame_action` (`src/connection/frame.rs`) what each frame asks for.

What is believed without proof stands in `src/ids.rs` (the `uuid` crate), `src/codec.rs` (the `wincode`
crate and its error types), `src/payload/json.rs` (the error type of `serde_json`, of which nothing is
claimed) and `src/signaling.rs` (one use of the standard library's formatting).
