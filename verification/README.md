# terminus

The decisions of a media tool server, written and verified in Verus.

- `src/` decides. A tool takes its arguments and the replies that came so far, and says what comes
  next: a request to send, an answer, or a failure. The server part does the same for incoming
  requests: who is heard, what is listed, where a call goes, what it is answered.
- `app/` carries the decisions out: it reads the environment, sends requests, serves HTTP, and
  computes the numbers that are not whole.
- `tests/` runs the library on concrete values.

What the contracts promise about whole runs stands in public proof functions beside the code they
are about, for example:

- a change that needs confirmation and has none sends nothing, whatever a service might say
  (`media::request::unconfirmed_request_only_answers`);
- nothing is deleted unless its title was spelled out
  (`media::organize::nothing_is_deleted_unconfirmed`);
- a caller without an account never causes a look at anybody's history
  (`media::recommend::guests_read_no_history`);
- a caller who is not entitled learns nothing about what is playing
  (`media::now_playing::the_unentitled_learn_nothing`);
- a map of accounts with one mistake in it gives nobody an account
  (`media::account_map::malformed_maps_give_nobody_an_account`);
- a refused call reaches nobody (`mcp_server::refused_calls_reach_nobody`), and a call that is
  passed on to an upstream leaves its approval code behind
  (`mcp_server::upstreams_see_no_approval_codes`);
- equal titles are worth more than one title within another, and that more than any overlap of words
  (`media::search::title_worth_keeps_its_band`, `media::search::overlaps_never_outrank_substrings`);
- a name is listed once (`mcp_server::names_are_listed_once`), and a call of it goes to the source
  whose tool is listed (`mcp_server::calls_go_to_the_owner`).

Calls into other crates stand behind small functions marked `external_body`, each with a comment
that says what is taken on trust: reading and writing JSON (`serde_json`), status lines (`reqwest`),
header values (`axum`), session ids (`uuid`), and three functions of the standard library: lower
case, the lossy reading of UTF-8, and the reading of a decimal number.
