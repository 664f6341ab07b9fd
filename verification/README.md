# abby_bot

A general purpose Discord bot: bulk message deletion with an archive,
self-service role lists, per-server feature switches, a few quick server
administration helpers and a meme or two.

## Layout

- `src/` is the library, written in Verus. Every decision the bot takes is a
  function here with a contract: reading message links, the settings menu,
  which roles a list may offer and what a member's selection changes, the
  SQL statements the bot runs, the text of every reply, the error replies of
  the command framework, the command line and configuration, and the
  "bottom" byte encoding. Public proof functions state the laws that tie
  these functions together (for instance that a bottom encoding decodes back
  to its bytes, or that applying a member's role changes leaves them holding
  exactly the roles they selected).
- `app/` is the program around the library: the Discord client (poise and
  serenity), the SQLite database (sqlx), logging, the command line and the
  configuration file. It gathers plain values, asks the library, and performs
  what the library answers.
- `tests/` runs the library on concrete values.

The `bot` module holds the commands of the `bot` binary, which stores the
role lists of each server in tables of their own.
