# wallpaper_switcher

A desktop wallpaper switcher's core, verified with Verus. It picks a keyword
source by drawing a ticket from a lottery in which each enabled source holds
as many tickets as its weight (at least one); that the draw is uniform rests
on the `rand` crate. It asks Unsplash or Wallhaven for
an image at least as large as the largest display, skips blacklisted images,
and adjusts weights and the blacklist from tray feedback.

- `src/` — the verified library: `config` (settings model and defaults),
  `selection` (lottery of sources and the run of update attempts), `providers`
  (requests and acceptance of answers), `service` (schedule of the background
  loop), `tray` (menu commands and feedback), `launch`, `text`, `chance`
  (random choices through `rand`) and `laws`.
- `app/` — the desktop program around it: Tauri window and tray, HTTP
  requests, the settings file, the wallpaper itself.
- `tests/` — tests of the library on concrete values.
