# figma_cli

A command-line bridge to Figma Desktop: each command becomes a Plugin-API
JavaScript payload that the FigCli plugin runs inside Figma, sent through a
small local daemon.

- `src/` is the verified library (Verus): the script builders (`cmds`, `cli`,
  `jsgen`), JSON string literals (`json`), hex colours (`color`), the
  daemon's decisions (`daemon`) and its book of pending requests
  (`requests`), the token and pid files' text (`config`), reading JSON and
  base64 replies (`parsing`), the daemon's wire messages and replies
  (`daemon`), the render engine's icon URLs (`engine`) and the image tool's
  decoding and downscaling (`tools`). Calls into serde_json, base64, image
  and rand stand behind wrappers whose contracts are stated beside them.
- `app/` is the program around it: argument parsing, the HTTP/WebSocket
  daemon, the embedded QuickJS engines, file and network I/O.
- `tests/` runs the library on concrete inputs.
