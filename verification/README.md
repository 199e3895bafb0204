# compile_bot

A Discord bot that compiles and runs Rust, C++ and C snippets sent with
`/run`, and reports the machine's load with `/system_load`.

- `src/` is the verified library: decimal numbers and file names
  (`text`), the run of one snippet as a state machine (`executor`), a
  single compilation (`compiler_interface`), the slash commands and their
  answers (`commands`), the load report (`utils`) and the gateway event
  handling (`handler`). `model` holds the plain data exchanged with Discord.
- `app/` is the program around it: it talks to Discord through serenity,
  writes files and starts processes with tokio, reads the load with
  sys-info and sets the compiled program's limits with libc.
- A run of `/run` writes `./<channel>-<user>.<ext>`, compiles it to
  `./<channel>-<user>.o`, and runs that program under seven resource limits
  (10 MiB of address space, 5 MiB of data, 2 MiB of stack, no core dumps,
  no file writes, two processes, four open files) at priority 19, with
  10 seconds to finish: a program that takes longer is reported as timed
  out, with the compiler's output kept. Both files are removed before the
  outcome is reported.
- `tests/` exercises the library on concrete values.
