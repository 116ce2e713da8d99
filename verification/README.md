# ferrum_vault

A local password manager's server logic, verified with Verus.

- `src/` — the library: password encryption (`cipher`), tokens (`token`),
  accounts and sign-in (`account`), the vault endpoints (`vault`), error
  answers (`errors`), pages (`frontend`), records (`models`) and the text
  encodings they share (`encoding`). Calls into outside crates (pbkdf2,
  chacha20poly1305, hex, argon2, jsonwebtoken, serde_json) stand behind small
  trusted wrappers whose contracts are stated beside them.
- `app/` — the axum server around it: routes, SQLite access through sqlx,
  askama pages, serde forms of the records, token checks.
- `tests/` — tests of the library against the outside crates it calls.
