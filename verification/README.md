# romm_tui

The state and rules of a terminal client for a RomM game library, written in Verus and
proved against their contracts.

- `src/` is the verified library: text and search helpers, ROM grouping, the OpenAPI
  endpoint registry, the ROM loading scheduler, and one module per screen (library browser,
  search, game detail, extras picker, downloads, settings, setup wizard, request editor,
  result viewer, directory picker, theme cycling), plus the self-update checks (version
  comparison, asset names, checksum tables). Each screen is a state with transitions whose
  `ensures` say exactly what a key or an event does; laws between transitions (moving down
  and then up, typing and then deleting, toggling twice, switching tabs and back) are public
  proof functions next to them.
- `tests/` runs the library on concrete values.
- `app/` is the front end around it: the terminal session, drawing with `ratatui`, key
  events from `crossterm`, directory listings, the browser, and downloading and installing a
  release.

Not included: the RomM API client and its configuration, and everything that needs them —
fetching and downloading, uploading ROMs and saves, the transfer of saves to and from the
server, resolving checked extras into download targets, and the main event loop that drives
the screens against the server. The library holds the screens' state and decisions
(including the game detail view's save list and upload picker, whether the library's upload
prompt is open, what Ctrl+R and Ctrl+U do, each step of the pending ROM load, and the notices
after a self-update); a front end that has the client performs the requests and hands the
results back.
