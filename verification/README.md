# assistente_rs

The logic of an Italian voice assistant, verified with Verus: command
normalisation, wake-word recognition, keyword and bookmark matching, the
extraction of file-command arguments, the intent state machine that turns a
recognised command into an action, and the planner for the actions an AI
agent asks for.

Layout:

- `src/testo.rs`: string primitives (search, trim, split, replace, join)
  with their mathematical models.
- `src/comandi.rs`: cleaning and correcting a spoken command, extracting
  its arguments.
- `src/messaggi.rs`, `src/config.rs`: the configuration and message model.
- `src/intento.rs`, `src/esecuzione.rs`: the intent handler; `esegui` maps
  a command and the current state to the next state and one action.
- `src/finestre.rs`, `src/agente.rs`: window bookkeeping and the AI action
  planner.
- `src/esterni.rs`: the contracts assumed of `str`, `char`, `regex` and
  `urlencoding` calls.
- `src/leggi.rs`: laws over several functions, proved.
- `app/`: the I/O around the library (files, processes, windows, speech,
  browser), which carries out the actions the library decides.
