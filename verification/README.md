# mosaic

A video contact-sheet generator: still contact sheets, screenshots, animated preview
reels and animated contact sheets, all rendered by ffmpeg.

- `src/` is the verified library (Verus): grid geometry, timestamp sampling, drawtext
  escaping and overlays, header composition, interpretation of ffprobe and MediaInfo
  reports, every ffmpeg command line the pipelines run, output naming, the configuration
  checks and the command-line option rules, and the batch bookkeeping. Each public
  function carries a contract; the laws the library promises are public proof functions
  (`lemma_*`) next to the functions they relate.
- `tests/` runs the library on concrete values.
- `app/` is the `mosaic-cli` program around it: argument parsing, the configuration
  file, JSON decoding of the ffprobe and MediaInfo reports, process spawning,
  cancellation, progress bars and file-system access.

The desktop application's shell (its window, commands and event plumbing) is not part of
this repository. The decisions it makes are in `src/` all the same: the one-job gate and
batch tally (`jobs`), where outputs go (`commands::resolve_out_dir`), how a file is
revealed in the file manager (`commands::reveal_command`), the list of video extensions
(`input_scan`) and the event names (`events`); `mosaic-cli` does not use them.

Times are carried in milliseconds and frame rates in hundredths of a frame per second,
so the library needs no floating point.
