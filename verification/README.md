# vibesql_mail

Agent-to-agent mail for AI coding teams: agents send, read, reply to and
search messages, grouped in threads, over an HTTP API or an MCP server. The
mail is stored through the `vibesql-micro` query service (`POST /v1/query`).

The library in `src/` holds the logic and is verified with Verus:

- `auth` — HMAC-SHA256 request signatures, timestamp drift, development mode.
- `config` — settings from the environment and `~/.vibesql-mail/server.toml`.
- `db`, `schema` — query replies, error texts, the schema and its statement-by-statement migration.
- `json`, `text`, `decimal` — the JSON values, string and number handling the logic needs.
- `models` — the records of agents, messages and inbox entries, read from rows.
- `routes` — the HTTP routes as state machines: each takes the outcome of its
  last query and says which query to send next, or what to answer
  (`send`, `delivery`, `listing`, `reading`, `threads`, `agents`, `admin`).
- `mcp`, `mcp_catalog`, `mcp_start`, `mcp_send`, `mcp_read`, `mcp_text` — the MCP server:
  command line, JSON-RPC routing, the tool and resource catalog, lazy
  start-up, tools and their texts.
- `stream` — server-sent events: frames and the clients of each agent.
- `thread_id` — fresh thread identifiers.

`app/` is the program around it: the actix-web server, the reqwest client of
the query service, the stdio loop of the MCP server, and the serde forms of
the library's types. It performs the queries the library's state machines ask
for and hands back their outcomes.

`tests/` exercises the library on concrete values.
