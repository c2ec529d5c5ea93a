# WSL ConPTY stdin truncation repro

Shows whether bytes that are written to the stdin of a Windows pseudoconsole reach a
bash that runs under WSL, or are dropped on the way.

The program creates a bidirectional named pipe, hands its client end to
`CreatePseudoConsole` as input and output, starts `wsl.exe -- bash` on the console and
writes a script to the server end: a here-document of 81,920 letters in 410 lines, a
command that stores the length bash has read in `/tmp/wsl_repro.txt`, and `exit`. It then
reads the file back with a plain `wsl.exe -- cat` and compares. Bash counts the letters
and one newline for each line, 82,330 characters in all.

    wsl-stdin-repro [DISTRO_NAME]

## Layout

`src/` is a library, verified with Verus. It decides what is to be
done and what an answer leads to; `app/` does it.

- `repro`: a whole run, from action to event to next action, with what it prints.
  `run_laws` states what holds of every run.
- `pipe`, `conpty`, `spawn`: the kernel objects of the pipe, the search for `conpty.dll`
  and the pseudoconsole, and the start of bash.
- `pump`: the event loop between the script and the pipe.
- `heredoc`: the lines and the script; `bash`: what a bash that gets all of it reads.
- `count`, `decimal`: the count read from the result file.
- `report`: the assessment and the printed lines.
- `status`, `wide`: HRESULT and NTSTATUS codes, UTF-16 command lines.

`app/` is the program around it: the calls into Windows, `mio` and the process's
environment. Only the event loop and the percentage are compiled on other systems, where
the program says that it is for Windows only.
