# spotuify

A terminal Spotify client with local OAuth (PKCE) callback authentication.

The library under `src/` is verified with Verus. Each public function's
contract states what it returns. Where part of a result comes from chance
or the environment, the contract states the rest: the authorization URL's
fixed parameters (its PKCE challenge is random), and the suffix of an XDG
config path (its config home comes from the environment). The
properties that span several functions stand as `law_*` proof functions
beside the code they speak of.

- `app`: the screen router, the actions that messages become, the app state
  that actions update, and the handling of auth worker events.
- `auth`: redirect URI and callback URL validation, reading the callback
  request, the browser response, the session that holds the Spotify client,
  the order of events in browser authorization, and the decisions of the
  flow (cached token, refresh, code exchange).
- `config`: the startup state that a config file leads to.
- `spotify`: how Spotify client failures are classified, and the retry policy
  that refreshes credentials once and retries transient failures.
- `ui`: each screen's render state and text.
- `client`, `urls`, `text`: client failures as plain values, URL and IP
  parsing through the `url` crate and the standard library, and string helpers.

`app/` is the program around the library: the event loop and terminal
widgets (tuirealm), the config file reader (serde, toml), the callback socket
listener, the background auth worker, the browser launch (open) and the
Spotify HTTP calls. It hands each result to the library and performs what the
library decides.
