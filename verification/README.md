# sdkman_mcp_server

An MCP server for SDKMAN! with two tools: `get_sdkman_version`, which reports
the script and native versions of an installation, and `install_sdkman`, which
downloads and runs the official installer.

The decisions of the server are a library verified with Verus (`src/`):

- `text`, `paths`: trimming, substring search, decimal rendering, path joining
  and final path components, each specified over character sequences.
- `error`, `server`: the server's errors, their messages, and how each tool
  reports a failure (code, message, data).
- `versions`, `sdkman_version`: where the version files are, when SDKMAN! counts
  as installed, and how the versions are read and reported.
- `platform`, `utils`: supported platforms, the bash check, the SDKMAN!
  directory, and read-only shell configuration files.
- `installation`: the installation as a state machine (platform and bash
  checks, detection with the installed versions, the read-only check of the
  shell configuration files, download with retries, installer run,
  verification), with proofs of the order of its steps, of its idempotence
  across runs, of the refusal of native Windows without bash, and of the retry
  bounds.

`app/` holds the program around it: the MCP transport, environment variables,
the file system, the HTTP client and the installer process.
