# subversion

Verified logic of the Subversion bindings.

- `src/` is the library, verified with Verus: error codes and their
  categories, error chains and their messages, the options that each client
  operation takes (with their defaults and builders), diff options, conflict
  kinds and choices, borrowed string views, cache settings and
  authentication settings. Laws that span functions are public proof
  functions next to the functions they speak of.
- `app/` calls the Subversion and APR C libraries (pools, error chains,
  base64, cache configuration, diffs, path canonicalization, conflict
  callbacks, authentication parameters) and hands plain values to the
  library.
- `tests/` runs the library on concrete values.
