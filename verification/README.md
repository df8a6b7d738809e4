# zero2prod

A newsletter service whose decisions are verified with Verus.

- `src/domain`: subscriber names and e-mail addresses, accepted only when valid.
  A name is accepted when it is not empty or all white space, has at most 256
  grapheme clusters (counted by `unicode-segmentation`) and holds none of
  `/ ( ) " < > \ { }`; an address is accepted when `validator::validate_email`
  accepts it. These rules are this crate's choice, not a specification.
- `src/routes/subscriptions.rs`: the subscription form, random subscription
  tokens, the confirmation e-mail, and the subscribe handler as a state machine
  (state and event in, next state and action out), with laws over its runs.
- `src/routes/subscriptions_confirm.rs`: the confirmation handler as a state machine.
- `src/routes/login.rs`: the login page and the decisions of the login handler.
- `src/http.rs`: the status codes the handlers answer with.
- `app/`: the actix-web server, the database queries and the e-mail client, which
  perform the actions that the library asks for.
