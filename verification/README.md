# tagbot

The logic of a Discord bot that keeps per-user word counters and a shared
store of text tags, written in Verus and proved against its contracts.

- `src/` — the verified library:
  - `text` — joining arguments, cutting at a separator, decimal numbers
    (writing and parsing);
  - `messages` — the text a tag is made of (`ExtractInfo`);
  - `paging` — how stored rows fall into pages, and the page viewer driven
    by the navigation buttons;
  - `components` — the navigation buttons and the page picker;
  - `commands` — the prefix commands, each as a few steps between database
    requests (`count`, `cadd`, `cremove`, `cedit`, `clist`, `tag`, `tadd`,
    `tcopy`, `tremove`, `tedit`, `tlist`, `challenge`);
  - `handler` — counting the stored words in every message;
  - `interactions` — the slash commands and their answers;
  - `outside` — the calls into `regex`, `rand` and `str::to_lowercase`,
    whose contracts are trusted.
- `app/` — the bot itself: Discord (serenity), the Postgres database, and the
  loop that performs the requests the library's steps name.
- `tests/` — tests of the library on concrete values.
