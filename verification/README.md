# workspace (multi-workspace window state)

The state of a window that holds several workspaces: which workspaces it
holds and in what order, which one is active, and whether its sidebar is
registered and open. The invariant of the window (at least one workspace, the active position in
range) is a type invariant. Every operation is verified with Verus against a
mathematical model and returns, as a list of effects, the work that the host
UI has to perform (re-render, persist, move focus, tell workspaces about the
sidebar, build a new workspace).

- `src/model.rs`: the model (`MultiWorkspaceView`) and each operation as a spec function.
- `src/multi_workspace.rs`: the executable `MultiWorkspace`, each method proved to follow the model.
- `src/effects.rs`: effects, sidebar events, drag payloads, steps of opening a project.
- `src/project.rs`: the step after a workspace answered the request to close.
- `src/focus.rs`: where focus goes inside a workspace (zoomed dock panel or active pane).
- `src/tabs.rs`: tab bar and window layout decisions.
- `src/laws.rs`: properties proved of the model (cycling, round trips, identity of the active workspace).
- `app/lib.rs`: an adapter that performs the effects through a host trait.
