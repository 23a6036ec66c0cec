# Geist VPN

A SoftEtherVPN client with an iced window. The library in `src/` holds the
client's logic with its behaviour stated as Verus contracts and proved:

- `profile`: VPN profiles, their validation, tags and favorites, and the
  profile cache with its queries (search, favorites, tags, most recent).
- `client`: the connection state machine, the requests built for SoftEther,
  and the messages that describe failures.
- `gui`: the window's state and how each message changes it (`step`), with
  the work it asks for returned as an effect.
- `ui`: what each panel shows and the profile form.
- `hub`, `commands`, `vpn_manager`, `cert_prompt`, `error`, `bindings`,
  `memory`, `text`: Virtual Hub enumeration, front-end commands, status
  reporting, certificate prompts, errors, SoftEther structures and string
  conversions, and the text functions the rest is built on.

`app/` is the program around it: the SoftEtherVPN C calls, the profile files,
the VPN manager thread and the drawing of the window.
