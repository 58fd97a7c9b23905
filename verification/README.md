# gitrust

A self-hosted git forge: repositories with browsing, history and diffs,
issues, merge requests, milestones, labels, wikis, groups with invite codes,
accounts with email verification and captcha-protected sign-up, and git's
smart HTTP protocol.

The crate is in two parts.

- `src/` is the library, verified with Verus. It holds the forge's rules and
  formats: naming rules for users, groups and repositories; how an
  `/<owner>/<repo>` address resolves; invite codes, verification tokens and
  captcha answers and when each is honoured; directory listings and their
  order; commit summaries, ages and history pages; diff lines; size labels,
  language detection and binary detection; pkt-line framing; Markdown
  rendering; wiki slugs; the verification email. Each public function states
  its result in its contract, and the properties that span functions are
  proved as lemmas (for example, that a listing's sorted form is unique, that
  a freshly hashed password signs in, or that an invite code accepted at some
  instant was accepted at every earlier one). Calls into argon2, comrak,
  ammonia, captcha-rs, uuid, chrono, lettre and rand sit behind small trusted
  wrappers whose contracts say what those crates document.
- `app/` is the web server around it: axum routes, the PostgreSQL queries,
  sessions, templates, git2 and the `git` program, and sending mail. It
  reads and writes, and hands the library plain values.

`tests/` exercises the library on concrete values.
