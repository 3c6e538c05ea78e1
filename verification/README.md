# Murmur

Hold a key, speak, let go, and the words are typed into the focused window.

`src/` is the verified library: the decisions of the dictation engine, of its
panel button and of its settings window. It holds no devices, processes,
files or connections. Each part that works with them is a state machine: it
takes what happened and says what to do next.

- `session`, `controller`: a dictation from key press to typed text
- `keyboards`: the push-to-talk key across all keyboards
- `engine`, `download`, `models`: the speech models, how they are fetched and
  made ready
- `audio`: cutting the recorder's bytes into samples
- `fillers`, `replacements`, `replacer`, `text`: cleaning up a transcript
- `typing`: getting text into a window, or onto the clipboard
- `config`, `paths`, `labels`, `state`, `status`: settings, files and names
- `panel`, `settings`, `bus`: the panel button, the settings window, and how
  they follow the engine

`tests/` runs the library. `app/` holds the three programs around it:
`murmurd`, `murmur-applet` and `murmur-settings`.
