# agentcli-git-mcp

An MCP server that gives a client git tools for one repository, chosen when the server
starts:

    agentcli-git-mcp --repository <path>

The tools and their arguments are named as in `mcp-server-git`. Git itself does the work,
so its output reads as it does in a terminal.

- `src/` is the library, verified with Verus. It decides which commands a call runs and
  what the call is answered; it starts no process and touches no file.
  - `text`: white space, decimal numerals, decoding of bytes
  - `git`: the repository, the process run for a command, values on the command line
  - `args`: the arguments of the tools
  - `server`: the tools, as steps from a call to its answer
  - `cli`: the command line of the server
  - `laws`: what holds of the server as a whole, above all that no text of a client becomes
    a flag of git
- `app/` is the program around it: the protocol, the processes, the file system.
- `tests/` runs the library on concrete values.
