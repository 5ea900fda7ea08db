# g3_trader

The verified core of a desktop desk for futures trading accounts (CTP trading fronts).

- `src/` is the library, checked by Verus:
  - `text`: decimal text of integers and `:`-joined keys.
  - `config`: the account settings and the rows shown per account, with their keys.
  - `table`: a table of rows keyed by text, each key at most once.
  - `trader`: one account's trader: its status and tables, and the login and query
    sequence it drives (`Trader::handle_spi_msg`, from message to next state and actions).
  - `db`: the registry of traders, one per configured account (`Database::sync_traders`).
  - `command`: adding and deleting configured accounts, and the sample command.
- `app/` is the program around it: the desktop shell, the connection to the trading
  front, the message loop, the configuration file and logging.
- `tests/` exercise the library on concrete values.
