# kiboard

The PC side of KiBoard, a phone-as-Stream-Deck: the host advertises itself on the LAN, pairs
phones by a six-digit code with one revocable token per device, follows the app in front, serves
each phone a layout for its own grid, and runs what a pressed key stands for.

Everything the host decides is in `src/`, written in Verus and proved against its contracts:

- `config`, `deck`, `validation`, `faces`, `session`: the Deck/Page/Key model, repagination onto
  any grid and the inverse that resolves a press, the checks a deck must pass, two-state keys.
- `protocol`: what each client message is answered and how it moves the session, the pairing
  attempt, the devices and the profiles.
- `connection`: one phone's connection as a state machine: the brake on failed logins, the pings,
  which layouts and neighbouring pages are pushed after each event, the release of a held drag.
- `pairing`: codes, tokens, lockout after wrong guesses, device management, the LAN address to
  offer, the certificate fingerprint, the QR codes, the discovery record.
- `profiles`, `layout`, `shell`, `apps`, `windows`: the built-in auto-mode catalogue, how the
  app in front picks its profile and layout, the Launcher's recent apps, the window switcher.
- `actions`: the macro language, parsed into the steps to press.
- `obs`, `state`, `i18n`, `seeding`, `host`, `text`, `platform`: OBS requests and state, live
  state, translations, bringing a stored configuration forward, the editor's commands, string
  helpers, and the platform queries (empty on a target without a desktop backend).
- `pixels`: an icon's premultiplied BGRA pixels turned into straight RGBA.

`app/` is the program around the library: files, the TLS WebSocket server, mDNS, the OBS client,
the foreground watcher, the desktop input, and JSON. `tests/` runs the library on concrete values.
