# bottle_zoa

The verified core of a WeChat official-account bot through which employees
register with their mobile number (confirmed by an SMS code) and ask for their
remaining annual and compensatory leave.

- `src/` is the library, verified with Verus:
  - `wx_msg`: reading the fields of an incoming XML message and writing the
    XML of a text reply;
  - `commands`: the registration and query dialog as a state machine, one
    step per answer from the stores; `dialog_laws` states what every step
    keeps;
  - `models`: users and leave balances; `sms`: the SMS request and the check
    of a reply against the kept code;
  - `text`, `clock`: decimal and date rendering, and readings of the clock.
- `app/` is the web service around it (Rocket routes, MySQL through Diesel,
  the SMS gateway, Redis, spreadsheet upload); it performs the actions the
  dialog asks for and hands back what came of them.
- `tests/` exercises the library.
