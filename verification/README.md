# bzod

The decision logic of the BZOD web layer (a multi-tenant URL shortener and
landing-page host), written in Verus and proved against its contracts.

- `src/` is the verified library: input validation, redirect and
  password-prompt decisions, login and role rules, cookie plans, pagination,
  sorting of listings, CSV and metrics rendering, analytics date filters and
  exports, backup restore planning against the global slug registry,
  moderation, quotas and token issuing. The multi-step handlers (admin
  login, link and page creation through the API and the forms, slug
  transfer, account deletion, moderation, the user's restore, the analytics
  exports) are step functions: from the state and what
  storage last answered to the next state and the effect to perform, so the
  order of checks, reservations and releases is proved. Calls into chrono, sha2, hex, uuid and
  axum's header check stand behind small trusted wrappers whose contracts say
  what the outside crate's source shows.
- `tests/` runs the library with the real outside crates linked.
- `app/` holds what Verus does not see: serde copies of the request and
  response types, axum response building and the file-system helpers.
