# ahenk-tui

A terminal dashboard for the Ahenk sync engine. `src/` is a library, verified
with Verus, that holds every decision of the dashboard; `app/` is the program
around it, which draws, reads keys and talks to the database.

| Module       | What it holds                                                      |
|--------------|--------------------------------------------------------------------|
| `tab`        | the tabs and the text fields                                       |
| `app`        | the state, and how loaded data changes it                          |
| `input`      | what keys do, and when data is loaded again                        |
| `peer`       | adding a peer by its multiaddress                                  |
| `records`    | database records as table rows                                     |
| `clock`      | the current time, and how a time is written                        |
| `layout`     | rectangles and how they are divided                                |
| `screen`     | what the screen shows, as a list of panels                         |
| `config`     | the settings that are shown                                        |
| `text`       | searching, trimming and numbers in decimal                         |
| `laws`       | what holds of the dashboard as a whole                             |

The library never reads a file, a database or the terminal. A key press goes to
`input::handle_key`, which changes the state and returns an `Action`; the program
performs it and hands the outcome back (`App::refresh_data`, `App::read_logs`,
`App::execute_sql_query`, `App::execute_add_peer`). Before each frame
`input::reload_due` says whether data has to be loaded again, and `screen::ui`
says what to draw.

What the library takes from other crates stands behind a few trusted functions:
dates and the current time come from `chrono`, random peer ids from `uuid`, and
the division of the screen from `ratatui`.
