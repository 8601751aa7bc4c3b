# fm_bridge

A verified library for talking to Apple's on-device foundation model, and a thin asynchronous crate
around it.

The model is reachable from Swift only. A small helper program, `FMBridge`, stands between: one is
started for each request, gets the request as one line of JSON on its standard input, and answers
with one JSON object per line on its standard output.

`src/` decides everything about that exchange and is verified with Verus. `app/` does the input and
output on `tokio` and decides nothing.

| Module | What it holds |
|---|---|
| `types` | requests, schemas, responses and events |
| `double` | double-precision numbers as their bits, with the order of IEEE 754 |
| `validate` | what is wrong with a request before a helper is started |
| `wire` | the request as it is written for the helper |
| `json`, `events` | what a line of the helper means |
| `error` | why a request can fail, and when to try again |
| `locate` | where the helper can be |
| `bridge` | the handle: helper, timeout and concurrency budget |
| `session` | one request from its admission to its end, as stages that the caller drives |
| `transcript` | what a helper's whole output comes to |

## A request, stage by stage

1. `Bridge::complete`, `Bridge::stream` and `Bridge::check_availability` check the request, and then
   whether the helper is there. Nothing runs yet: a malformed request never reaches a helper.
2. `Pending::take_slot` goes on once a slot of the bridge came free, or fails with a timeout.
3. `Admitted::wire` is what to send, and `Admitted::started` goes on once it was sent.
4. `Running::on_read` takes the helper's lines one by one and says what to do next.
5. `Running::finish` judges the response by how the helper exited.

At each of the last four the time can run out: what came of it is `Elapsed`, and the request ends
with a timeout.

The slot goes from stage to stage; whichever stage is dropped gives it back.

## What is proved

Every function states what it returns for every input. Among what holds of the library as a whole:

- a collected response is all the text that the helper sent, its last object and its usage, exactly
  where the helper said that it is done and exited with status zero;
- a stream hands out the same events, in order, and ends with the one that ends the response;
- nothing comes after an error or after the end of a response, whatever is read;
- a probe succeeds exactly where the helper says that the model is ready and reported no failure
  before that;
- lines that mean nothing can stand anywhere without changing the response;
- a request passes its checks exactly where it is well formed at every depth;
- a request on the wire holds every field that is set under its own key, and no others.

## What is trusted

The contracts of the outside functions that the library calls: reading JSON and looking into it
(`serde_json`), the counting semaphore (`tokio`), and from the standard library trimming and
searching text, joining and showing paths, showing durations, and the kind of an I/O error. Each
stands next to the contract that is relied upon.
