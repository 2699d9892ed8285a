# twedia

A tool to losslessly clip media files: pick an input, choose a start and an
end time and the kinds of streams to keep, and write the clip to an output
file, with preview images and a preview player.

- `src/` is the verified library (Verus): the editor's state machine
  (`state`), the clip parameters, stream selection and ffmpeg arguments
  (`media`), player decisions and arguments (`media::player`), preview
  decoding decisions (`media::preview`), output file naming (`paths`),
  decimal text (`decimal`) and small helpers (`utils`).
- `app/` is the program around it: the iced window, file dialogs, running
  ffmpeg and mpv, and reading media with the ffmpeg libraries. It performs
  the actions the library's state machine asks for and hands back the results.
- `tests/` exercise the library on concrete values.

Times are held in microseconds; the window shows them in seconds.
