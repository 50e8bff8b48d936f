# platform_core

The core of a local platform that keeps projects and the agent definitions
that belong to them.

- `src/` is the verified library. It holds the records (projects, agent
  definitions, their settings and policies), the rules that validate them
  (project names, working-directory paths, required agent fields), the way a
  creation request becomes a record and a change request is applied, the
  stored row form of each record and how a row reads back, and the decisions
  behind the command-line requests. Every public function carries a contract,
  and the properties that span several functions are stated and proved as
  proof functions (for example: every change keeps a project archived exactly
  while it carries an archiving time; an agent definition never leaves its
  project; writing a record into its row and reading it back gives the same
  record, its points in time included whenever their text is in the normal
  form in which it is read — which every time the library writes with a
  four-digit year is).
- `app/` is the part that talks to the world: the SQLite store (through
  `sqlx`), the file system for working directories, the asynchronous services
  that read, let the library decide, and write, and the `clap` command
  handlers that print results.
- `tests/` exercises the library on concrete values.
