# warp_oss_shims

The models, decisions and data shapes behind the open-source build of a
terminal's AI, cloud-agent, settings and file features, written in Verus with
their contracts proved.

Layout:

- `src/` — the verified library. Each module states what its functions return
  and change over spec functions and views, and holds the laws that span
  functions as public proof functions (`law_*`):
  - `files` — reading text files in line ranges within a byte budget, and the
    file model that tracks registered files, versions and write steps;
  - `text`, `text_lines` — UTF-8 and line-splitting helpers;
  - `ambient_agent`, `ambient_views` — the cloud agent view model and its views;
  - `managed_secrets`, `integrations`, `blocks`, `server` — request builders
    and response interpreters of the server API, and what this build answers;
  - `slash_commands`, `search`, `keyed` — the slash command registry, search
    helpers and key-replacing entry lists;
  - `ai_settings`, `settings_pages`, `tab_configs`, `terminal_views`,
    `editor`, `watcher`, `ids` — settings, views, editor values and ids.
- `tests/` — tests of the library on concrete values.
- `app/` — file I/O on `async-fs`, and copies of library types that carry
  serde derives.
