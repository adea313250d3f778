# discord_core

The decisions of a Discord client, written in Rust and proved with Verus.

- `channel`, `recipient`, `private_name`, `channel_list`, `channel_update`: the known channels,
  which of them can be seen, and how payloads change them.
- `notification`: settings, mutes, levels, how a message notifies and what is unread.
- `voice`: sessions, who is speaking, media packets and their protection, outgoing frames and
  the child tasks of a connection.
- `state` holds everything that is known; `payload`, `message` and `event` are what comes in and
  goes out.
- `*_laws` and the functions named `law_*` state what holds of several operations together.

Types that hold text or collections have a view, a mathematical value that contracts speak of;
plain values stand for themselves. Functions that depend on the
time come in pairs: one takes the time and has an exact contract, the other reads the clock and
promises the answer for some reading.

What the library takes on trust stands in `clock` (the clocks and RFC 3339 timestamps),
`voice::aead` (the two ciphers) and `text` (quoting for logs).

`app/` runs what the library decides: tasks, channels, devices and floating-point levels.
