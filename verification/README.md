# moltis

The decisions of a Matrix bot channel, written in Verus and proved against their contracts.

- `src/` is the verified library.
  - `access`, `config`: who may talk to the bot and which invites it accepts.
  - `auth`: which credentials an account uses, and the session or login they make.
  - `room`, `message`: what becomes of a room message, from the first look to the delivery.
  - `otp`, `clock`: self-approval with one-time codes.
  - `voice`, `audio`: audio messages, their formats, captions and file names.
  - `location`: shared locations and `geo:` URIs.
  - `events`: poll responses and invites.
  - `skills`: the manifest of installed skills.
  - `text`, `path`: the operations on text and file names that the rest is built on.
- `app/` connects the library to the homeserver and to the gateway. It performs the actions that
  the step functions of the library ask for, and hands the outcomes back as events.
- `tests/` runs the library on concrete values.

The laws are public proof functions that state what holds of all inputs.
Functions marked `external_body`, and the `assume_specification` items, are the places where the
proofs rest on the documented behaviour of other crates. Their doc comments say what is relied on.
