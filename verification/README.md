# meta_engine

A catalogue engine for an audio-works site. Clients ask it to scrape a listing (a voice
actor, circle, scenario writer, illustrator, series or genre); it queues requests for
scraping workers through Redis, collects their answers as a stream, and stores the works
with their tags and time tables in Postgres, reporting progress over server-sent events.

- `src/` is the verified library: the request and job model, the stream record, the
  retry and step machines of the exchanges with the workers and the store, the parsing
  and writing of decimal numbers, the addresses of listings, pages and playlists, and the
  answers to clients, each with its contract, and the laws that tie them together.
- `app/` runs the service: configuration, the Redis and Postgres connections, the async
  tasks and channels, the HTTP routes, the schema migrations and the serde forms of the
  library's types. It drives the library's step machines with what the outside world
  answers.
- `tests/` runs the library on concrete values.
