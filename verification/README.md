# feishu2acp

A bridge between Feishu and coding agents. A bot receives messages over Feishu's
long connection, hands them to an agent session through the command line of
`acpx`, and sends back what the agent says. Markdown files travel both ways.

The rules of the bridge are a library whose behaviour is stated in contracts and
proved by Verus. The program around it talks to Feishu, runs processes and keeps
files.

## Layout

- `src/` is the library.
  - `text/`: characters, lines, numbers, searching and trimming, over sequences of
    characters.
  - `domain.rs`, `error.rs`, `ports.rs`, `paths.rs`, `platform.rs`, `support.rs`:
    what the parts share.
  - `config.rs`: the settings that an environment gives.
  - `markdown.rs`, `send_markdown.rs`: markdown files and their names.
  - `application/`: commands, what they come to, how the answers are rendered, and
    the handling of a message from its arrival to the reply.
  - `adapters/`: the calls of `acpx` and what it prints, Feishu's events and
    messages, processes, the shell, and the contexts of conversations.
  - Files whose names end in `_laws` hold what is proved of several functions at
    once.
- `tests/` runs the library on given values.
- `app/` is the program. Run under the name `send_markdown_file`, it sends one
  markdown file to a chat.

## How a message is handled

`BridgeService` decides and never acts. `handle_message` begins an `Interaction`;
`pending` says which call comes next; `advance` takes its answer; `finish` counts
how it went. The program makes the calls. So what is stored, what is asked of the
agent and what the user is told are fixed for every answer that can come back.

## Environment

Required: `FEISHU_APP_ID`, `FEISHU_APP_SECRET`.

| Variable | Default |
| --- | --- |
| `FEISHU2ACP_PERMISSION_MODE` | `approve-reads` |
| `FEISHU2ACP_REPLY_CHUNK_CHARS` | `3000` |
| `FEISHU2ACP_STATE_PATH` | `conversations.json` in the data directory |
| `FEISHU2ACP_MEDIA_DIR` | `media` in the data directory |
| `FEISHU2ACP_MAX_MARKDOWN_BYTES` | `1048576` |
| `FEISHU2ACP_ENABLE_MARKDOWN_INPUT` | `true` |
| `FEISHU2ACP_ENABLE_MARKDOWN_OUTPUT` | `true` |
| `ACPX_PROGRAM` | `acpx` |
| `ACPX_PROGRAM_ARGS` | none |
| `ACPX_TIMEOUT_SECS` | `1800` |
| `ACPX_TTL_SECS` | `300` |
| `RUST_LOG` | `info,feishu2acp=debug` |

Commands begin with `/`, the agent is `codex`, and the first workspace is the
directory that the bridge is started in.

## What is taken on trust

The contracts of a few functions of other crates and of the standard library are
stated, not proved; each stands in the source with what it claims:
`path_clean::clean`, `serde_json` for a list of strings and for an object with one
string, `shlex::split`, `String::push`, `String::from_utf8`,
`String::from_utf8_lossy` and `is_separator`; and for paths of Windows `Path::join`,
`Path::file_name`, `Path::parent` and `==` on paths.
