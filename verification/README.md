# animus

The discrete core of the vitusOS shell and compositor, verified with Verus.

`src/` holds the logic: window stacking and focus (`window_manager`, `xdg_shell`),
virtual desktops (`workspace`), the global menu bar and its panels
(`global_menu`, `panel`), the shell controller that routes events, keys and
clicks between components (`shell_controller`), the first-boot wizard
(`welcome`), lock, login, power and notification screens, the caches
(`tint_cache`, `glyph_cache`, `icon_cache`, `snapshot_cache`, `shader_cache`,
`cache_keepr`, `app_index`), the Wayland seat and outputs (`wayland`,
`ae_shell`), the DRM backend's buffer bookkeeping (`backend`) and the appkit
menus and controls (`context_menu`, `dropdown`, `button`, `text_field`).
Components that publish events return them; the shell controller queues the
effects (sounds, published events, launches) for the event loop to carry out.

Passwords and passphrases are cleared through `zeroize` once they have been
used. The contracts say that the fields are empty afterwards; that the old
bytes were overwritten in memory is what `zeroize` does, and lies outside
what a contract over string values can say.

`app/` is the compositor process around it: backend and socket setup from the
environment and `/dev/dri`, the frame loop, systemd notifications and signal
handling, PAM, the application-menu JSON, shader-cache files, and the
floating-point screen geometry (snap rectangles, title room, dock
magnification, card grid placement).

`tests/` exercises the library through its public API.
