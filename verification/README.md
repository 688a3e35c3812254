# yt_dlp_webui

A small web front end for `yt-dlp`: a client submits a URL and a mode, follows
the job's progress as server-sent events, and downloads the file once it is
done; old downloads are cleaned up periodically.

- `src/` is the verified library: stored text of job states and modes, the
  progress model and the event-stream rules, the `yt-dlp` command line and
  output handling, the course of a job as a state machine, the clean-up sweep, and the served
  file name. Contracts and lemmas there are checked by Verus.
- `app/` is the server around it: HTTP routes, SQLite, processes, timers,
  logging, and the JSON/TOML forms of the library's types.
- `tests/` exercises the library on concrete values.
