# qwen

A client for the Qwen text-generation service, verified with Verus.

- `src/` is the library. `config` holds the models and the client's
  configuration; `client` builds the HTTP client from an API key and the
  requests it sends; `types` holds the request and response data; `converse`
  keeps a conversation's history, with the laws that relate its operations;
  `err` the errors; `chat` the decisions of the command-line chat.
- `app/` is the command-line program and everything that goes over the
  network: JSON encoding and decoding, sending requests, streaming answers.
- `tests/` runs the library on concrete values.
