# LG Buddy

LG Buddy keeps an LG television that serves as a computer screen in step with the computer:
the panel goes off when the session is idle, the television goes off before a sleep or a
shutdown, and comes back when the computer does. A marker records that it was this computer
that put the screen off, so that a restore does not take over a television that somebody else
uses.

The library under `src/` is written in Verus. It decides; it does no input or output.

- `text`, `number`, `net`, `failure`: text, numbers, addresses and failures.
- `config`, `paths`, `delay`: the configuration file, where it is looked for, and the delays.
- `wol`: the magic packet and where it goes.
- `process`: the programs that are asked about the system and the user.
- `effects`: what a command asks of the outside world, and what the outside world answers.
- `commands`: one module for each command, with the plan that follows from each answer.
- `run`: the run of a command, one action at a time.
- `history`, `marker`, `talk`, `endings`: what holds of every run.

A run is driven by performing `Run::pending` and handing what came of it to `Run::step`. The
code under `app/` does so on a Unix system.
