# exosphere

The core of Exosphere, a multiplayer space strategy game,
as a Verus-verified library, and the server program around it.

`src/` is the library. Every function in it has a contract that Verus proves:

- `ids`, `types`, `fab`, `comms`: identifiers, the table of piece types
  (prices, who may place and move them, fabber levels, names, assets, sensor
  and field radii), fabber levels and their order, and the values messages
  carry.
- `protocol`: the byte protocol (length pass, writer, reader, whole frames),
  with the laws that frames read back what was written; `numbers`: the
  fixed-layout integer encoding.
- `websocket`, `connection`, `handshake`, `ring`, `text`: one websocket
  connection as a state machine over the bytes it receives, from the HTTP
  upgrade request to frames, with the accept key computed by `sha1` and
  `base64` and the incoming bytes held in a `ringbuf` ring.
- `game`, `handlers`, `client`: the phase clock, the end-of-game check,
  placement, path and gun changes, joining and losing, deaths, the client's
  handling of server messages (the test exchange first), and the client's
  own path edits, which the server applies with the same result.
- `pathfollower`, `server_path`: the strategy paths pieces follow.

Calls into outside crates stand behind small trusted wrappers, each with a
doc comment saying what is assumed of it.

`app/` is the server program: sockets and polling, the configuration file,
the messages with their `bitcode` and `serde` derives, and a game loop that
asks the library about joining, placing castles and buying, money, losing,
the end of a game and the phase clock. The program runs no piece engine (the
physics is floating point) and no client, so the library's decisions about
pieces (paths, guns, where a piece may go down, deaths, scrap ships, timers)
and the client's decisions have no caller there; `tests/` exercises them. The
floating-point kinematics and piece shapes stay in `app/` unverified.
