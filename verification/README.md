# petrovich_core

Declension of Russian full names, job titles and departments, gender
detection from name parts, and the logic of three front ends (a command-line
tool, an HTTP API and a padeg-compatible COM/C interface), verified with Verus.

## Layout

- `src/` — the verified library.
  - `text.rs` — the character-level model: whitespace, words, splitting,
    joining, decimal digits, integer parsing.
  - `gender.rs`, `gender_rules.rs` — gender detection and its rule tables.
  - `inflect.rs` — cases, and the calls into the `petrovich` inflection engine.
  - `appointment.rs` — declension of job titles and departments.
  - `adapter.rs` — the padeg `Declension` methods as plain functions.
  - `cli.rs` — decisions of the command-line tool (options, lines, batch lines).
  - `web.rs` — query decoding, routing, and requests and responses on the wire.
  - `com.rs` — identifiers, dispatch, argument conversion, registry plan and
    the caller-buffer protocol of the COM server and the C exports.
- `tests/` — tests of the library.
- `app/` — the program: `main.rs` (command line), `server.rs` (HTTP server),
  `capi.rs` (flat C exports), `com_server.rs` (COM server, Windows only).

## Usage

```sh
petrovich decline --lastname Иванов --firstname Иван --middlename Иванович --case dative --gender male
# -> Иванову Ивану Ивановичу
petrovich gender --lastname Иванов --firstname Саша
# -> male
petrovich appoint --appointment "Начальник цеха" --office "Цех нестандартного оборудования" --case genitive
# -> Начальника цеха нестандартного оборудования
petrovich serve --bind 127.0.0.1:8080
curl "http://127.0.0.1:8080/decline?lastname=Иванов&firstname=Иван&case=dative&sex=male"
# -> Иванову Ивану
```
