# rust_kratos

An authentication service in front of [Ory Kratos](https://www.ory.sh/kratos/):
registration, login, logout and e-mail verification through Kratos's
self-service flows, behind a small REST API.

## Layout

- `src/` is the verified library. Each use case is a state machine: it says which
  HTTP request to send to Kratos next and decides, from each answer, on the next
  request or on the outcome. The library also checks request bodies, maps Kratos
  errors to domain errors, maps domain errors to HTTP answers, and derives the
  configuration. Contracts are stated over `Seq<char>` and a mathematical model of
  JSON documents (`json::JsonValue`).
  - `domain/`: values (e-mail, password, flow id, session cookie), errors, the
    inputs and outputs of the use cases.
  - `application/`: the login, logout and registration use cases.
  - `infrastructure/adapters/kratos/`: flow fetching and submission, request
    bodies, Kratos error handling, identity documents.
  - `infrastructure/di/`: the adapter factory and the container of use cases.
  - `presentation/`: request bodies and the answers of the REST endpoints.
  - `startup/`: environment selection, defaults, configuration checks.
- `app/` is the program around the library: configuration loading, logging and
  tracing, the actix-web server and its handlers, and the `reqwest` client that
  performs the requests the library asks for.
- `tests/` exercises the library on concrete inputs.
