# nserve

Puts a development server on a public ngrok URL: it runs a command, finds the
first port on which the command listens, and hands the requests that come in at
a public endpoint on to that port.

The library under `src/` holds every decision and is verified with Verus. It
does no input or output of its own: each module takes what happened as plain
values and says what to do about it. The program under `app/` does the rest.

| module | what it decides |
|--------|-----------------|
| `cli` | whether the options make sense together |
| `auth` | which authtoken is used |
| `ingress` | which endpoint is asked of ngrok, and under which traffic policy |
| `json` | the text of that policy |
| `tracer` | what to do at each stop of the traced command |
| `discovery` | which port is behind a socket, from the tables under `/proc` |
| `process` | how the command is watched, and what its exit status means |
| `session` | what to do at each event of a session |
| `proxy` | how a request is answered or handed on, and how it is remembered |
| `state` | what the status page shows |
| `terminal` | what the keys typed stand for |
| `files`, `text` | reading files and text |

The functions whose names start with `law_` state what holds of several of
these functions together.
