# mechanus_bot

A Discord administration bot. The library (`src/`) holds what the bot decides and
says, with its contracts and laws proved by Verus:

- `registry`: the per-guild registry of members, warns, start roles, allowed roles and
  logging channel, and every change the commands make to it;
- `roles`: looking a role up by name and listing roles;
- `embed`: the rich answers, as plain data;
- `text`: decimal numbers and registry file paths;
- `commands`: each command's decisions, errors, answers and log lines;
- `outside`: the calls into serenity and into std's number parsing and `Debug` text.

The program (`app/`) connects to Discord, reads and writes the registry files
(`registries/<guild id>.json`), and carries each command out around the library. It
also answers the errors of Discord and file calls (a user or guild that cannot be
fetched, a registry that cannot be read), and writes the user list as the `Debug`
text of its own copy of the members.
