# VAM Downloader

A batch downloader for files behind HTTP and HTTPS URLs, with its decisions proved in
[Verus](https://github.com/verus-lang/verus).

```
vam_downloader [URL_OR_FILE_OR_JSON_URL] [SAVE_DIR] [--concurrent <NUM>] [-c <NUM>] [--skip-head] [-s]
```

- `URL_OR_FILE_OR_JSON_URL`: an HTTP/HTTPS URL, the path of a file with such URLs (one per line), or
  the URL of a JSON list of them.
- `SAVE_DIR`: where the files go; `./downloaded_files` by default.
- `--concurrent`, `-c`: how many downloads run at a time; 3 by default, and always more than 0.
- `--skip-head`, `-s`: take the file's name from its URL instead of asking the server.

## Layout

- `src/` is the library. `cli` reads the command line, `input` and `urls` find the URLs that an
  input stands for, `task` takes one download from step to step, `retry` judges failures,
  `filename` chooses names, `batch` plans and sums up. `runs` holds what is proved of every
  download from its beginning to its end. `outside` holds the calls into other crates, and what is
  taken on trust of them.
- `app/` is the program around the library: requests, transfers, files, progress and log.
- `tests/` runs the library on concrete values.
