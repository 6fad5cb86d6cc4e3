# isucholar_infra

The data access layer of a course-registration web application, split in two:

- `src/` is verified with Verus. Each repository builds the SQL statements it
  sends (text plus the ordered values for its `?` placeholders) and interprets
  what the database answers (counts, duplicate-key failures, optional scores,
  decimal totals). Every statement is proved well formed: it binds exactly one
  value per placeholder. The dynamic course search and unread-announcement
  queries are specified over the search conditions, and the keyword splitting
  they rely on is proved to be the unique decomposition of the input into
  space-free words.
- `app/` is ordinary Rust: it sends the statements through `sqlx`, decodes the
  rows, and wires the repositories into the services.
