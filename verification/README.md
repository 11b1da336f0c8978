# vapour

The verified core of Vapour, a payment kiosk on which college students top
up their college payment accounts.

- `src/` is the library, verified with Verus:
  - `text`: character-level string operations (search, trimming, removal);
  - `money`: balance and amount texts (`£12.50`), cleaned for the number parser;
  - `keypad`: editing the typed amount and submitting it;
  - `clock`: the 12-hour clock label;
  - `animation`: decoding the start-screen GIF (through the `gif` crate) and
    stepping through its frames;
  - `accounts`: reading the accounts database's replies;
  - `runshaw`: requests to the college service and the greeting steps;
  - `kiosk`: the start screen and card payment flows as step functions,
    with their properties proved.
- `app/` is the program around it: the window, file reading, the network calls, the
  card reader, and the floating-point amount arithmetic.
- `tests/` runs the library on concrete values.
