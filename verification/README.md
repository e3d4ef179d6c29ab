# vagabond

The rules of the Vagabond client's compose and gameplay screens, verified
with Verus.

- `src/` is the library. `data` holds the game data the screens read as plain
  values; `card` says where a card may be launched, how its cost reads and how
  a deck is ordered; `phase` is the turn cycle (what the "next" button sends,
  how each server message moves the phase, what the terminals print);
  `gameplay` is the gameplay screen's state (card picks and their erg, the
  attribute choice, the node action, the terminals); `nodes` is the node
  panel (links, actors, access point title); `compose` is the compose board
  (dragging parts between holders, reading the build off the board); `ui`
  chooses widget colours; `text` renders numbers.
- `tests/` runs the library on concrete values.
- `app/` is the Bevy plumbing of the screens: it reads the ECS world and the
  server's messages, calls the library, and draws what it answers.
