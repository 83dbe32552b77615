# pica

The verified core of the Pica integration platform, written in Verus.

- `src/` is the library. Every function in it carries a contract that Verus
  proves: how listing requests become store queries (`filter`), how
  connections are keyed, created, updated and shown (`keys`,
  `connection_ops`, `connection_details`, `listing`,
  `available_connectors`), the usage metrics and analytics events
  (`metrics`, `tracking`), the database resources of SQL connections
  (`k8s`), the command line client's configuration (`cli`), and the
  decisions of the server's background loops (`background`). The laws of
  the library are its public `law_*` proof functions.
- The outside calls that the library makes (`http::HeaderMap::get`,
  `uuid::Uuid::new_v4`, `chrono`'s clock and date arithmetic, and
  `str::to_lowercase` / `std::str::from_utf8`) each stand behind one small
  trusted wrapper whose contract says what is assumed of it.
- `app/` is the program around the library: the `pica` command line client
  (configuration file, terminal, browser, the onboarding callback server),
  the request handlers over an abstract backend of stores and services, the
  background loops and the watchdog.
- `tests/` runs the library on concrete values.
