# session_sync

Decides how stored sessions are brought under one shared model provider: when the status of
the sessions is complete, when a synchronization may write, in which order it writes, and what
it reports. The decisions are verified with Verus.

The library does no input or output. Each operation is a state machine: an action function
says what has to be done next, a step function takes what came back.

| Module | What it holds |
| --- | --- |
| `text`, `lists`, `messages` | text, lists of texts, what the user is told |
| `types`, `error` | what storage finds, what is reported |
| `scan` | judging the route, the first failure, a scan of the session files |
| `status`, `query` | reading the status |
| `lock` | taking the lock on session maintenance |
| `sync` | the synchronization |
| `story`, `status_run`, `query_run`, `lock_run`, `sync_run` | whole runs: everything that is asked for, and the outcome |
| `sync_laws` | what holds of every synchronization |

`app/` carries the actions out: the lock in the file system, the sessions through a storage
layer that implements `SessionStorage`.
