# qingjian_keys

How an input method for Chinese turns key presses into text, as a library verified with Verus.

- `router`, `dispatch`: the key dispatcher. It owns no engine. A key is settled in turns: each turn
  yields operations for the engine and either the effect of the key or a question, and the host
  answers the question.
- `request`: the vocabulary of that conversation.
- `effect`, `key`, `codes`, `text`: effects, keys, key codes, characters and strings.
- `turns`: what holds of every conversation. Text comes out in the order in which it was typed,
  every question can be answered, and every key is settled.
- `rules`: the rules that a user can rely on, such as that the keypad never picks a candidate.
- `shared`: the state of a text service: its flags and handles, and the updates that wait for an
  edit session of their document context.
- `com`: the handles of the Text Services Framework, and what is taken on trust of them.

`app/` holds the host's side: it runs keys against an engine, and keeps the text service's state
behind its connection to the server.
