# mcp_proxy

A proxy for the Model Context Protocol. It puts servers for server-sent events
and for streamable HTTP in front of services that are child processes or that
live behind a URL, and serves remote services to a local client on standard
input and output.

The decisions are a verified library under `src/`; the program around it, with
its network, its child processes and its command line, is under `app/`.

| module | what it decides |
| --- | --- |
| `router`, `router_laws` | how a request finds its service, which is started or restarted where needed |
| `starting`, `start_task`, `launch` | which server is put in front of a service, and how its process is started |
| `sse_handler`, `backend_cell`, `tools` | which requests go to a backend, and what a client is told |
| `session_manager` | which sessions outlive a reconnect |
| `client_config`, `headers`, `mrtr_headers` | which headers are sent |
| `sse_client`, `watchdog`, `watchdog_laws`, `stream_client`, `backoff` | how often and how soon a client connects and reconnects |
| `server_builder`, `stream_server`, `fallback` | how servers are described, and what they answer by themselves |
| `convert`, `command_mode`, `program` | what the program runs, and what it says |
| `text`, `shown`, `table`, `time`, `model` | the values that the others work on |
