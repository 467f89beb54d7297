# octerm

A terminal client for GitHub notifications: a command shell that lists,
confirms, opens and marks notifications as done, and the state machine of a
full-screen browser with views of issues, pull requests, releases and
discussions.

The library under `src/` is verified with Verus:

- `parsec`, `parser`, `parser/types`: parser combinators and the command line
  grammar (`list pr open | confirm | done`), each stated as a function on
  character sequences.
- `commands`: what a listing selects, the confirm queue, and removing the
  notifications marked as done.
- `app`, `actions`, `keybind`: the browser's state and what each message or
  key does to it.
- `timeline`, `markdown`, `views`, `text`: what the screens show, as styled
  lines; Markdown is parsed by pulldown-cmark and laid out here.
- `github`, `error`, `events`, `ui`, `util`: the values the rest works on.
- `laws`: properties that span several functions.

`app/` holds the shell program: the line editor, the terminal, and the
requests to GitHub.
