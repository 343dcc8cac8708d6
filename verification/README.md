# quizzical

A terminal quiz game for certification exam prep, with a verified core.

`src/` is the library, verified with Verus. Every screen is computed there as
a list of texts placed at a column and a row with their colours, and every
decision of the game is a function with a contract:

- `text`, `wrap_laws`, `number`, `number_laws`: word wrapping, padding, decimal numbers,
  thousands separators, and the laws that hold of them.
- `beat`: beat-mode scoring (speed × chain multipliers) and statistics.
- `session`: what each answer does to a normal or a beat session.
- `controls`: what each key does on the picker, the title and the questions,
  and when a timed question ends.
- `fuse`: the burning fuse that shows the time left.
- `screen`, `results`: the layouts of all screens.
- `deck`, `files`, `messages`: questions (with distinct answer keys) and decks, deck files on disk, and
  the random taunts and banners.

Time in beat mode is kept in whole milliseconds.

`app/` is the terminal front end: it reads the deck file (JSON) and the
keyboard, measures the time, and paints what the library lays out. The
particle burst after a right answer runs on floating point and lives there.
