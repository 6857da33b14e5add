# mj_tui

The core of the Mjolnir terminal dashboard as a verified library: the tiling
of the conversation panes, and the wizards that create, resume, move and
restore sessions.

- `src/` is the library. Every function there has a contract, and Verus proves
  it. What the library promises as a whole stands in the public proof
  functions whose names begin with `law_`.
- `tests/` runs the library on concrete values.
- `app/` is the terminal around it: it reads events with crossterm, draws with
  ratatui, and hands the library plain values.

## How it is laid out

| Part | Modules |
| --- | --- |
| Tiles | `geometry`, `ratio`, `rounding`, `tile_layout`, `tile_navigation`, `tile_laws`, `conversation` |
| Records and state | `records`, `dashboard_state`, `dashboard`, `drafts`, `sameness`, `duplicate` |
| What is on offer | `catalog`, `ordering`, `lists`, `tables`, `readiness`, `resources`, `paths` |
| The steps | `begin`, `new_session`, `resume`, `bundle_editor`, `projects`, `mounts`, `draft_rules` |
| Events | `on_screen`, `shortcuts`, `events`, `activation`, `changes`, `path_updates` |
| Controls and screens | `controls`, `declarations`, `screen`, `picker`, `form_screens`, `review`, `review_pages`, `project_screen`, `wizard_screens` |
| Texts | `text`, `widgets`, `decimal` |
| The dashboard | `panes`, `selection` |

Each type of the library has a view, and contracts speak of views. A
dashboard is `well_formed` when its tables are in the order of their keys, no
key occurs twice, and the draft on screen `fits`: it refers only to profiles,
bundles and targets that there are.

## What is not proved

Six functions pass a call on to another crate, and their contracts are taken
on trust: the widths of texts (`unicode-width`), the width of a line and the
rows of a wrapped paragraph (`ratatui`), the reading of a timestamp
(`chrono`), and the quoting of a text (the standard library).
