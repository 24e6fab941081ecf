# playit

The agent side of [playit.gg](https://playit.gg): a runtime that keeps a tunnel agent alive,
the background service around it, the protocol between the service and its clients, and the
account commands of the command line. The rules by which all of these act are written and
proved in Verus.

## Layout

- `src/`: the library. Every function states what it returns or changes, and Verus proves
  it. It makes no system calls: where the outside world is needed, one function says what to
  do next and another one takes what came of it.
  - `text`, `ids`, `paths`: text, numbers, identifiers and the parts of paths.
  - `outside`: the calls into other crates and the standard library that are not proved, each
    with the contract that is believed of it.
  - `api`, `http_client`, `client`, `auth`, `session`, `web_api`: the Playit API, its
    credentials and retries, account sessions and what is stored of them.
  - `model`, `error`, `ipc`, `ipc_server`: the messages of the service, the client's and the
    server's side of a conversation.
  - `options`, `secret`, `claim`, `tunnels`, `state`, `handle`, `runtime`: the runtime, from
    the secret to a running agent and back after failures.
  - `control`: the control channel, which endpoint it talks to and how it is kept alive.
  - `daemon`, `unix`, `linux`, `sid`: the service on its host.
  - `cli`, `account`: the command line.
- `tests/`: the library on concrete values, with the real crates behind it.
- `app/`: the program around the library: HTTP, sockets, files, signals, arguments. The
  engine that carries the tunnels' traffic comes from the host through two traits in
  `app/runtime.rs` and two in `app/control.rs`.

## Reading the contracts

A type with text or lists in it has a model, named like the type with `View` at its end;
`x@` is the model of `x`. What an operation does is a `spec` function on models, and the
`ensures` of the executable function says that it does just that. The laws, public `proof`
functions, say what follows for callers: that secrets do not show, that a claim is not
exchanged twice, that a setup hands over the secret of its own claim, that pauses are bounded,
that a stored secret is loaded again.
