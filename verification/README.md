# streamchat

A desktop client that shows the chats of several Twitch streams side by side,
or replays a recorded chat from a CSV file.

- `src/` is the library, written in Verus and verified: the chat window's
  state machine (`chat`), the command palette (`palette`), chat messages
  (`message`), the CSV replay (`csv_stream`), emote databases (`emotes`),
  configuration and sign-in decisions (`config`, `oauth`), Twitch request
  and response handling (`twitch`), reading Twitch's JSON payloads
  (`json`), instants and durations (`clock`), stream addresses (`stream`), text
  helpers (`text`), and the properties that relate several operations
  (`laws`).
- `tests/` runs the library on concrete values.
- `app/` is the program: the iced window, file access, HTTP requests, the
  event websocket and the local server that receives the sign-in callback.

Twitch credentials go in `$HOME/.streamchat/api.toml`:

```
twitch_api_client_id = "<....>"
twitch_api_secret = "<....>"
```
