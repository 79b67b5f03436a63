# RemoteExecutorForSession

Tools for the files, searches, shell tasks and executors of a session, offered in the same
process as JSON-RPC and MCP calls, with a terminal that shows the shell tasks.

The library in `src/` is verified with Verus. It holds everything that decides or computes,
on plain values: JSON values, file references, the arguments and answers of the tools, the
records of shell tasks, the scheduling of terminals, and what a terminal shows and does.

A tool call is a sequence of steps. Each step either ends the call or asks for one action of
the host or of an executor, together with the state in which the answer is awaited
(`tool_call`). Who drives the calls carries out the actions and hands back what came of them.

| modules | what they hold |
| --- | --- |
| `text`, `number`, `order`, `json`, `store` | texts, numbers, orders, JSON values, maps by name |
| `types`, `fields`, `output`, `args` | what tools take and give |
| `jsonrpc`, `mcp`, `server`, `tooldefs` | requests, tools and the messages of clients |
| `refs`, `kept_refs` | file references and their labels |
| `exbash`, `rg`, `skill`, `workspace` | shell tasks, searches, skills, executors |
| `calls`, `file_tool`, `list_tool`, `exbash_tool`, `skill_tool`, `rg_tool`, `manager_tool`, `tool_call` | the steps of each tool |
| `laws` | what holds of every tool call |
| `host`, `memory_host`, `dummy_host`, `session_file` | what a host keeps |
| `ptyt` | terminals and the tasks that are handed to them |
| `client`, `local_event`, `term_input`, `term_task`, `term_list`, `attach`, `columns` | the terminal |

`app/` is ordinary Rust around the library: the servers on the standard streams and on
WebSocket connections, the drawing on a terminal, files, the network, and the calls into
`remote_executor` and `pty_t_protocol`.
