# Kartof-Play

An anime catalogue server: it gathers series, episodes and stream addresses
from several sites, keeps them in MongoDB, and serves a home page, a search,
a watch page and a player.

The library (`src/`) is written in Verus and holds the server's logic with
its contracts proved:

- `text` – substring search, replacement, splitting, trimming, number
  parsing and printing over `Seq<char>`.
- `scrapers` – for each site, the addresses requested and the reading of the
  pages (through `visdom`), each `get` taking the page that was fetched.
- `caching` – building a series record (`create`), refreshing a stored one
  (`refresh`) and rebuilding the day's home page (`home_build`) as step
  functions: each takes what the last request gave and says what to request
  next; plus the merge and refresh rules they apply.
- `utils` – the records, the store's decisions (lookups, search merging,
  home and stream-address writes), settings, images, rate limiting.
- `routes` – what the watch page shows and where the player's address
  comes from.

`app/` is the program around it: HTTP requests, MongoDB, files, threads,
node.js, and the web pages. `tests/` runs the library on concrete pages and
values.
