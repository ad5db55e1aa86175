# Rook

Rook is the daemon behind a desktop assistant that remembers. It answers chats
with a language model, lets the model call tools, keeps what it learns in a graph,
and indexes the files that are worked on.

`src/` decides and is verified with Verus: every function there states what it
returns. It reads no file, opens no socket and asks no clock. Where one thing
follows from another it is a machine that is told what happened and answers what is
to be done next.

| Part | What it decides |
| --- | --- |
| `text`, `json`, `strmap`, `order`, `stamps` | texts, values, maps by text, the order of texts and of time stamps |
| `outside` | the few functions of other crates that the rest relies on |
| `llm` | which calls of a model are made, which model is the cheapest, when a local one is started |
| `ipc::server`, `ipc::protocol`, `ipc::guards` | which lines are let in, what a request is, what of a message is sent on |
| `ipc::handlers` | what each request is answered |
| `ipc::handlers::chat` | the course of a chat, its modes, the tools and their answers |
| `indexer` | which files, pages and windows are kept, and what of them |
| `computer_use` | elements on the screen and the log of what was done with them |
| `links` | how nodes of the memory are linked, and how strongly |
| `error_log`, `startup` | what is written down of an error, and the settings at the start |

`app/` is the program around it: the pipe, the database, the model over HTTP, the
file system and the processes. It performs what the library asks for and hands back
what came of it.

`tests/` runs the library on given values.
