# url_uploader

A Telegram bot that uploads the file behind a link. It takes links from users and
groups, looks Terabox links up first, and works through the Terabox links of an input
channel's posts in batches.

- `src/` is the library, verified with Verus: which messages the bot answers and how,
  one upload per chat from its start to its end, who may cancel it, the name, kind and
  size of a file, the links in a text, and the record and the course of a batch. It
  does no input or output: it names actions, and takes their outcomes as events.
  - `text`: searches and cuts of texts
  - `links`, `filename`, `messages`: what is read from links and responses, and what
    the bot says
  - `bot`, `upload`: the state of the chats, updates, uploads
  - `models`, `batch`: the records and the course of batches
  - `external`: the calls into other crates, with the contracts that are believed of
    them
  - `laws`: what holds of the library as a whole
- `app/` is the bot around it: Telegram, HTTP and the database.
- `tests/` runs the library on examples.
