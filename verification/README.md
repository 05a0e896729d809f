# budget

A small personal-budget web application. The verified library (`src/`) holds what
the pages compute from the transactions table:

- `dates`: day numbers and the day after a day (through chrono).
- `money`: amounts in ten-thousandths, banker's rounding to cents and the balance
  label (through rust_decimal).
- `ledger`: transaction rows, sums of amounts before a day, the next income, rows by id.
- `order`: the stable date order of the transaction list.
- `paging`: page parameters, page counts and the rows of a page.
- `views`: the header, list, edit and total pages, with their failures.
- `passwords`: argon2 hashing and checking of user passwords.
- `flash`: the messages shown after a form is posted.
- `schema`: the tables that the migrations create and the order of the migrations.

`app/` is the web server around it: axum routes, the sea-orm database, tera
templates, cookies, the clock and the environment.
