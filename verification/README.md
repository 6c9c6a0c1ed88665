# bubble_backend

The backend of a news reader that learns what a reader likes. Liking,
saving and disliking articles moves ratings of their sources, categories and
languages; names rated low are left out of the next feed, which is fetched
at most every twenty minutes.

- `src/` is the verified library: the rating rules (`rating`, `ratings`),
  the records (`models`), the store's decisions (`store`), the feed request
  (`news`), times of day and the refresh cooldown (`clock`), and the machines
  that drive the HTTP handlers (`auth`, `feed`, `routes`). `laws` states the
  properties that hold across them.
- `app/` is the server: actix-web handlers, the MongoDB store and the calls
  to the identity and news services. It performs the actions that the
  library's machines ask for.
- `tests/` exercises the library on concrete values.
