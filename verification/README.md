# edge_snap

Windows that hide at the left, right or top edge of the screen, leaving a
narrow strip to peek out, and come back when the cursor touches that edge.

`src/` holds what is computed and decided, verified with Verus:

- `geometry`: rectangles, edge detection, hot zones, slide targets;
- `config`: the settings;
- `placement`: a window's rectangle and work area from what the system answered;
- `manager`: the phases of a window and what leads from one to the next;
- `animation`: the plan of a slide and its frames;
- `cursor`: what the mouse hook does with what it is handed;
- `laws`: what holds of all of these together.

All of it works on plain values. `app/` drives a `tauri` window on Windows with
it: it reads positions, the clock and the cursor, waits, and moves the window.

A function whose arithmetic can leave its integer type says so in its
`requires`; beside it stands a test of that condition (`can_...`) for callers
that are not verified.
