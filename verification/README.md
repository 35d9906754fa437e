# teamgate

The decision logic of a team console, verified with Verus.

- `src/invitation.rs`: the records an invitation link reads, the hash of the link's
  verifier (URL-safe Base64 of the SHA-256 digest of the decoded verifier), when a
  verifier is accepted and when a team is full.
- `src/flow.rs`: the state machine that accepts or rejects an invitation; the caller
  performs each action against the database and hands back the answer.
- `src/flow_laws.rs`: a whole run of that machine against a database that finds its
  records, and the laws that follow (a full team is refused without writes; a user
  joins only through a verified link sent to them; rejecting never adds anyone).
- `src/licensing.rs`: access to the license page, its tier cards and drawers, and the
  write of a chosen tier.
- `src/tier_flow.rs`: the state machine of the tier form, and the law that a chosen
  tier is written for its team alone, or, where the store fails, nothing changes.
- `src/model_form.rs`: validation of the model form and what saving it writes.
- `src/text.rs`: decimal text of integers.
- `src/foreign.rs`: the calls into `base64`, `sha2` and `validator`, with the
  contracts that the proofs rest on.

`app/` holds the HTTP handlers (axum), the form decoders (serde) and the pages
(dioxus); it drives the library and performs the database work through the
`Store` and `Transaction` traits.
