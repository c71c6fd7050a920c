# Scalpel

Scalpel is a node of the MD@Home network: it serves manga images from a local cache, fetches what it
does not have from the upstream servers, and keeps in touch with the backend that coordinates the
network.

## Layout

- `src/` is the library. It holds the decisions of the client, with contracts that Verus proves:
  - `tokens`: which request tokens are accepted;
  - `http`: which requests are served, the responses for cached and uncached images, the stream from
    upstream to client, the headers, the certificate chain, and the checks of TLS connections;
  - `cache`: keys and entries of images, the size of the database, and what is evicted from it;
  - `backend`: the messages to the backend, and what is made of its replies;
  - `config`: the settings, and the search for them;
  - `lifecycle`: periodic work, shrinking of the cache, and shutdown;
  - `run`: the course of the client from its first ping to its end;
  - `outside`: the functions of other crates and of the standard library that the rest relies on,
    each with what is taken for granted of it.
- `app/` is the program around the library: files, sockets, databases, clocks, logging and metrics.
- `tests/` runs the library on concrete values, together with the crates that it calls.

## Conventions

Every step that has to wait for something outside is split in two. The library says what to do next
and takes the result; the program does it. So a search for settings, an eviction from the database or
the proxying of an image is a small machine in the library that the program drives.

Sizes are counted in 64 bits and wrap around; `cache::size` shows that sums that fit are exact. The
thresholds for shrinking the cache are those of double precision arithmetic, computed in integers.
