# muzanci_cli

The command line tool of MuzanCI: it shows and checks pipelines, and it debugs a job
of a pipeline step by step in a remote sandbox.

`src/` is the tool's logic, verified with Verus. Whatever waits for the world outside
is a state machine there: an event goes in, and the next state and a task come out.

- `text`: words, white space and numbers
- `env`, `cli`: variables given as `KEY=VALUE`, and the commands
- `config`: what the tool reads of a pipeline
- `prompt`: logging in and selecting an account
- `stdin`: the standard input, shared by the prompt and the remote shell
- `ssh::client`: what a remote command or shell says
- `signal_receiver`, `error`, `git`: signals, errors and patches in words
- `debug::debugger`: the debugger's commands and screen
- `debug::debug_client`, `debug::debug_client_laws`: the client of a debug session, and
  what holds of a session as a whole
- `debug::debug_resolver`, `debug::debug_session`, `debug::debug_client_tunnel`: finding
  the server, connecting, and the tunnels to the sandbox
- `debug::checksum`, `debug::channel`: the checksum of an upload, and answers

`app/` is ordinary Rust that performs the tasks and reports the events.
`tests/` runs the library on concrete values.
