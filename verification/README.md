# jogicode

The logic of JogiCode, a desktop shell for code-server, as a verified library.

The library never touches the disk, the network or the window. It decides what is to be
done next and takes what came of it; every such decision has a contract that Verus proves.
`app/` does the work: it runs the loops, performs the actions and hands the outcomes back.

| Module | What it decides |
|--------|-----------------|
| `startup` | the course of a start, its failures, and what is stopped when the window closes |
| `readiness` | the wait for code-server and the move of the window to it |
| `watch` | the repeated attempts to reach a port, with their time limit |
| `ports` | the choice of a free port |
| `endpoint` | the address of code-server, the health request and its answer |
| `layout` | the data directory and what lies in it |
| `provision` | the preparation of the data directory |
| `defaults` | the files of a new data directory |
| `migrate` | which older data is taken over |
| `contents` | what folders hold, and what a copy makes of it |
| `copy` | the copy of a directory tree, without overwriting |
| `search` | the search for a file in a directory tree |
| `sidecar` | where Node.js and the entry script of code-server are |
| `server` | the command that runs code-server: program, arguments, folder and environment |
| `paths` | the verbatim prefix of Windows paths |
| `splash` | the scripts that write on the splash page |
| `journal` | the lines of the log |
| `text`, `tree` | numbers and prefixes; trees, as a picture of directories |

What holds of several functions together is stated in proof functions whose names begin
with `law_`. For example: a copy asks to copy exactly the files that are missing at the
destination (`copy`) and leaves what was there (`contents`), a search finds the first file
depth first (`search`), the lowest free port wins (`ports`), a writable portable folder comes
first (`layout`), the window moves only to a code-server that answered (`readiness`), an
answer may come in pieces (`watch`), a message is shown whole (`splash`), the first old
location with data is taken over alone, no location leads to the folder `.ssh` or lies above
it, and a second migration changes nothing (`migrate`), nor does a second preparation
(`provision`).
