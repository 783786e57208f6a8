# Kiosk Desktop

The desktop shell of a shop's till: it starts a MariaDB server and a Spring Boot backend,
shows the application in a window once it is healthy, runs a small HTTP bridge for receipt
printers and cash drawers, and stops everything when the window is closed.

- `src/` is the library: every rule of the shell, with contracts that Verus proves.
- `app/` is the program around it: the window, the processes, files and connections. It
  hands the library what it finds and does what the library calls for.
- `tests/` runs the library on concrete values.

## The library

| module | what it holds |
|--------|---------------|
| `supervisor` | where an installation lives, and how its database and backend are set up |
| `bundle`, `jar` | where the JVM, MariaDB and the application archive are found |
| `secrets` | the database password, the signing key and the payment key |
| `backend` | how the JVM is started, watched and stopped, and what its logs end with |
| `boot` | the steps of starting and ending the stack |
| `lifecycle` | what holds of both in every order of their steps |
| `http`, `http_laws`, `reply` | the requests and replies of the device bridge |
| `devices` | what the bridge does with a request, and where a receipt goes |
| `logging`, `calendar` | the lines of the log and their times |
| `path`, `text`, `number`, `error` | what the others are built from |
| `outside` | calls into other crates, whose contracts are taken for granted |

The starting and stopping of the database server itself is left to whoever runs the shell:
`run` takes a `Database`.
