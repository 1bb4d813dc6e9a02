# folio_bank

Bank statement import for a personal portfolio tracker, verified with Verus.

- `src/` is the verified library:
  - `bank_csv` reads the CSV exports of Australian banks (CommBank, Westpac,
    St. George, ANZ, NAB): decoding, delimiter and bank detection, column
    mapping, dates and amounts;
  - `ofx` and `qif` read OFX (XML and SGML) and QIF statements;
  - `bank_mapper` classifies bank transactions into portfolio activities;
  - `bank_connect`, `connect` and `automation` hold the models of Bank
    Connect, the decisions of its commands and the scripts it runs in a
    bank's window;
  - `amount` holds amounts as exact decimals read in the float text syntax,
    with infinity and zero where a float overflows and underflows. They are
    not rounded to the nearest float, so their full and two-decimal
    renderings agree with a float's `{}` and `{:.2}` only for values that a
    float holds (`1.015` gives `1.02` to two places, the float nearest to it
    `1.01`); `text`, `dates` and `hashing` are shared helpers.
- `tests/` runs the library on concrete statements.
- `app/` holds what is not verified: the serialisable forms of the types
  with amounts as floats, the settings file, and the commands written
  against the desktop shell's windows, run repository and account service.
