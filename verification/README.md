# plexo_core

The decision logic of the Plexo core server, verified with Verus.

- `src/` is the library. Each module states its rules as spec functions and
  proves the executable code against them:
  - `errors`: application and SDK errors, their HTTP statuses and texts;
  - `session`, `reply`: the session cookie and the replies of the auth endpoints;
  - `auth`, `github`, `decimal`: email login and registration, GitHub sign-in,
    logout, and the choice of a request's token;
  - `flows`: the login, registration and GitHub callback as step functions from
    state and event to next state and action, which the app's handlers run;
  - `graphql`, `inputs`: which member a GraphQL request runs for, who owns what
    a mutation creates, and which changes it records;
  - `headers`: the session token read from `Authorization` and `Cookie` headers;
  - `startup`, `logging`: the default admin and the organization set up at
    start-up, and the level the server logs at;
  - `laws`: properties that span several of these rules.
- `tests/` runs the library on concrete values.
- `app/` is the server itself (poem, async-graphql, the Plexo SDK): it performs
  the I/O and asks the library what to do at each step.
