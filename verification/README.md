# libg

The decision logic of the libg terminal IDE, verified with Verus: the bridge
to each terminal's Neovim and the agent-client-protocol session driver.

- `src/` — the verified library.
  - `bridge`: the Neovim connection of each terminal, notification filtering,
    channel-id extraction and connection error messages.
  - `lua_setup`: the Lua script injected into Neovim, written for the RPC
    channel of the connection.
  - `nvim_context`, `diagnostics`, `edits`: the editor context window, the
    diagnostics read from Neovim's JSON reply, and the order in which a batch
    of edits is applied.
  - `acp_state`, `acp_worker`, `acp_events`: the agent's status machine, the
    worker's decisions (session, prompts, replies, start-up failures) and the
    events the front end receives.
  - `ghostty_input`: keyboard modifiers in Ghostty's encoding.
  - `text`: decimal rendering of integers.
- `app/` — the Tauri commands, the Neovim and agent I/O, and the macOS
  Ghostty window, built on the library.
- `tests/` — tests of the library's public functions.
