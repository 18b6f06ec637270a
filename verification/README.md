# pacman

A chomping game: the player steers a yellow disc with the arrow keys and eats
smaller discs; a hundred enemy discs chase and eat each other and the player.

- `src/` is the verified library: headings and their steps (`direction`), the
  random spawning of enemies through `rand` (`random`), the integer state of a
  chomper with its mouth animation, movement, steering and squared distances
  (`pacman`), the vertical runs a disc is drawn with (`runs`), and the
  arrow-key controls (`controls`).
- `app/` is the program: the SDL2 window and event loop, drawing, and the
  rules that work on real-valued radii and angles (who can eat whom, how a
  radius grows, where the mouth is cut out).
- `tests/` exercises the library.
