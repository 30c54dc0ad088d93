# sodagun

Sandboxes for git worktrees. `sodagun git add-worktree` makes a workspace: a new branch in a
worktree of its own. `sodagun sandbox start` boots a microVM for that workspace, `attach` and
`exec` run commands in it, `stop` and `remove` end it. `sodagun snapshot create` runs a project's
setup script once and keeps the result, so that later sandboxes boot from it.

The library in `src/` holds everything that is decided: names, configuration and how it is
layered, network policies, mounts, variables and secrets, what is done next and what is undone
when a step fails. It is written in Verus, and every function is proved against its contract, but
for the small wrappers round functions of other crates and of the standard library: what these do
is believed, and each says in its comment what that is. Files, processes, git and the sandbox
runtime are reached from `app/`, which hands the library plain values and does what it says; it
needs the crates `git2`, `microsandbox` and `sysinfo` as well.

| Module | What it holds |
| --- | --- |
| `config` | tables of `sodagun.toml`, loading, layering, image and snapshot names, volumes |
| `network` | rules on the command line, named policies, the policy of a sandbox |
| `commands` | the steps of `git`, `sandbox` and `snapshot` |
| `values`, `guest` | variables and secrets; commands in the guest |
| `git_meta`, `git_access` | pointers of a worktree; git in the guest |
| `workspace`, `project` | a workspace's record; where a project is |
| `digest`, `ident`, `host` | what is left to other crates and to the system |
| `text`, `path`, `table`, `error`, `context`, `util` | what the others are made of |

Public proof functions whose names begin with `law_` state what holds across functions: that a
worktree that cannot be added leaves nothing behind, that quoting is undone by the shell, that a
sandbox has no network unless one is configured.
