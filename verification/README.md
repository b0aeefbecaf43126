# check_if_email_exists

Check whether an email address exists without sending any email.

`src/` is the verified library: syntax checks and normalization of
addresses, the reading of SMTP replies, the order of the commands on an
SMTP connection (catch-all probe, address, reconnection), the choice of a
verification method per provider, the Yahoo sign-up form, Gravatar and HaveIBeenPwned answers,
the worker's throttling, and the assembly of a check's result. Each function
carries a contract, and the properties that relate several functions are
stated and proved as proof functions next to them.

`app/` is the command-line tool: it performs the DNS lookups, the SMTP
conversations, the HTTP requests and the headless-browser sessions, and hands
their outcomes to the library. It checks one address given on the command
line; the library's HTTP routing and worker throttling have no server or
queue around them in `app/`, and the telnet conversation and the Yahoo `yid`
check have drivers there that the command line does not call.

`tests/` holds the tests of the library.
