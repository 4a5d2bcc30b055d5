# kiro_accounts

A verified library that keeps three things in step: the accounts of an account
store, the login that an IDE keeps on the machine, and the login of its command
line.

- `text`, `account`: the records and how their fields are compared.
- `expiry`: expiry times, local in the store and UTC in the IDE.
- `user_info`: e-mail address and user id, from tokens and service replies.
- `token_sync`: whether an account is the IDE's login, and moving tokens.
- `refresh_service`, `refresh_run`, `refresh_pass`: the loop that keeps tokens
  fresh, with its cooldown, its rescue of tokens from the IDE and its strikes.
  `refresh_laws` states what holds of every run.
- `cli_paths`, `cli_import`, `cli_switch`: the command line's database, importing
  its login and switching it. `cli_laws` states what holds of every import and
  switch.

What alternates with outside work is a run: a value at a stage, with one method
for each thing that can happen. `app/` carries the stages out: it holds the
locks, sends the requests and writes the files, through a trait that the desktop
shell implements.
