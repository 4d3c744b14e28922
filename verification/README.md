# moonlight

A GameStream client for Sunshine hosts, with its control logic verified by
Verus.

- `src/` is the verified library: host endpoints and saved hosts, the
  `serverinfo`/`applist` XML, the pairing handshake and the connect, launch,
  resume and cancel flows as state machines driven by host answers, the
  checks on what the streaming core is started with and hands back, remote
  input (keys, mouse, wheel, shortcuts, gamepads, touch), audio renderer
  health, license page layout, video fitting, and the application window's
  state model. Calls into outside crates (hashing, AES, RSA and X.509, URL
  and XML parsing, hex) sit behind small trusted wrappers whose contracts
  name what the calls return.
- `tests/` exercises the library, including a simulated host for the whole
  pairing handshake.
- `app/` is the program around it: HTTP requests, identity and settings
  files, the C streaming core, the Scarlet audio, video and libc services,
  and the window.
