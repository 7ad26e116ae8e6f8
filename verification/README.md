# chatbot

A small chatbot service: a Cloudflare worker serves a Leptos page with a chat
widget, and each chat room is a durable object that keeps its conversation and
asks an AI model for the replies.

- `src/` is the verified library (Verus).
  - `chat.rs`: the conversation of a room, what a client is shown of it, and
    one turn of a room (socket message in, reply out) as a state machine with
    its laws.
  - `api.rs`: which requests the chat endpoint hands on to a room.
  - `app.rs`: the chat widget as a state machine (events in, browser effects
    out), the text it renders, and the choice of the room name.
- `app/` runs all of it: the worker, the durable object, the Leptos page, and
  the JSON forms of the messages.
- `tests/` exercises the library on concrete values.
