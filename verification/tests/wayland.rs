use animus::ae_shell::{
    AEShellProtocolManager, AeShellManager, AeSurfaceState, AppMenuDefinition, MenuGroup, MenuItem, SurfaceAltitude,
};
use animus::backend::{blit_rows, AnimusBackend, AnimusDrmBackend, AnimusWinitBackend, BackendError, ConnectorInfo};
use animus::events::ShellEvent;
use animus::wayland::{
    AnimusOutput, AnimusSeat, ButtonState, DisplayError, KeyState, ModifierState, OutputManager, PointerButton,
    WaylandDisplay,
};
use animus::xdg_shell::XdgShellState;

#[test]
fn test_pitch_padding_stride_blit() {
    let width = 4usize;
    let height = 2usize;
    let pitch = 24usize;
    let src_pixels: Vec<u32> = vec![
        0x11111111, 0x22222222, 0x33333333, 0x44444444, 0x55555555, 0x66666666, 0x77777777, 0x88888888,
    ];
    let src_bytes: Vec<u8> = src_pixels.iter().flat_map(|p| p.to_ne_bytes()).collect();
    let mut dst_buffer = vec![0u8; pitch * height];
    blit_rows(&mut dst_buffer, &src_bytes, width, height, pitch);

    assert_eq!(&dst_buffer[0..16], &src_bytes[0..16]);
    assert_eq!(&dst_buffer[16..24], &[0u8; 8]);
    assert_eq!(&dst_buffer[24..40], &src_bytes[16..32]);
}

#[test]
fn blit_rows_tight_pitch_copies_everything() {
    let src: Vec<u8> = (0u8..16).collect();
    let mut dst = vec![0xAAu8; 20];
    blit_rows(&mut dst, &src, 2, 2, 8);
    assert_eq!(&dst[0..16], &src[..]);
    assert_eq!(&dst[16..20], &[0xAA; 4]);
}

#[test]
fn blit_rows_skips_rows_that_do_not_fit() {
    let src: Vec<u8> = (1u8..=8).collect();
    let mut dst = vec![0u8; 9];
    blit_rows(&mut dst, &src, 1, 2, 6);
    assert_eq!(&dst[0..4], &[1, 2, 3, 4]);
    assert_eq!(&dst[4..9], &[0; 5]);
}

#[test]
fn test_winit_backend_creation() {
    let backend = AnimusWinitBackend::new(1920, 1080).unwrap();
    assert_eq!(backend.width, 1920);
    assert_eq!(backend.height, 1080);
    assert!(backend.is_initialized);
    assert_eq!(backend.wayland_socket_name, "wayland-vitusos-1");
    assert_eq!(backend.name(), "winit-wslg");
    assert_eq!(backend.output_geometry(), (1920, 1080, 60));
    assert!(!backend.has_gpu());
}

#[test]
fn test_drm_backend_uninitialized_present_frame() {
    let backend = AnimusDrmBackend::new(Some(vec![Some("card0".to_string())])).unwrap();
    assert!(!backend.is_initialized);
    assert_eq!(backend.back_buffer_for(1920, 1080), None);
}

#[test]
fn drm_backend_device_selection_errors() {
    assert!(matches!(AnimusDrmBackend::new(None), Err(BackendError::NoDrmSubsystem)));
    assert!(matches!(
        AnimusDrmBackend::new(Some(vec![Some("renderD128".to_string()), Some("by-path".to_string())])),
        Err(BackendError::NoCardDevice)
    ));
    assert!(matches!(
        AnimusDrmBackend::new(Some(vec![Some("renderD128".to_string()), None, Some("card0".to_string())])),
        Err(BackendError::DirEntry)
    ));
    assert!(AnimusDrmBackend::new(Some(vec![Some("card0".to_string()), None])).is_ok());
    let b = AnimusDrmBackend::new(Some(vec![
        Some("renderD128".to_string()),
        Some("card1".to_string()),
        Some("card0".to_string()),
    ]))
    .unwrap();
    assert_eq!(b.drm_path, "/dev/dri/card1");
    assert_eq!((b.width, b.height, b.refresh_hz), (1920, 1080, 144));
    assert_eq!(b.name(), "drm-kms");
    assert!(!b.has_gpu());
}

#[test]
fn drm_backend_initialize_and_flip() {
    let mut b = AnimusDrmBackend::new(Some(vec![Some("card0".to_string())])).unwrap();
    let connectors = vec![
        ConnectorInfo { connected: true, preferred_mode: Some((2560, 1440, 165)) },
        ConnectorInfo { connected: false, preferred_mode: Some((1024, 768, 60)) },
        ConnectorInfo { connected: true, preferred_mode: Some((1280, 720, 30)) },
        ConnectorInfo { connected: true, preferred_mode: None },
    ];
    let served = b.initialize(&connectors, 4);
    assert_eq!(served, vec![0, 2]);
    assert!(b.is_initialized);
    assert_eq!(b.surface_count, 2);
    assert_eq!((b.width, b.height, b.refresh_hz), (1280, 720, 60));

    assert!(b.needs_scanout_buffers(1280, 720));
    b.record_scanout_buffers(1280, 720);
    assert!(!b.needs_scanout_buffers(1280, 720));
    assert!(b.needs_scanout_buffers(1920, 1080));
    assert_eq!(b.back_buffer_for(1280, 720), Some(1));
    assert_eq!(b.back_buffer_for(0, 720), None);
    b.flipped(1);
    assert_eq!(b.back_buffer_for(1280, 720), Some(0));
}

#[test]
fn drm_backend_initialize_limited_by_crtcs() {
    let mut b = AnimusDrmBackend::new(Some(vec![Some("card0".to_string())])).unwrap();
    let connectors = vec![
        ConnectorInfo { connected: true, preferred_mode: Some((1920, 1080, 144)) },
        ConnectorInfo { connected: true, preferred_mode: Some((1920, 1080, 60)) },
    ];
    assert_eq!(b.initialize(&connectors, 1), vec![0]);
    assert_eq!(b.surface_count, 1);
}

#[test]
fn test_wayland_display_socket_path() {
    let display = WaylandDisplay::new("wayland-vitusos-1", Some("/run/user/1000"));
    assert_eq!(display.socket_name, "wayland-vitusos-1");
    assert_eq!(display.socket_path, "/run/user/1000/wayland-vitusos-1");
}

#[test]
fn wayland_display_default_runtime_dir() {
    let display = WaylandDisplay::new("wayland-0", None);
    assert_eq!(display.runtime_dir, "/run/user/1000");
    assert_eq!(display.socket_path, "/run/user/1000/wayland-0");
    let r: Result<usize, DisplayError> = display.dispatch_events();
    assert_eq!(r, Ok(0));
    display.flush_clients();
}

#[test]
fn test_output_dpi_and_scale() {
    let mut output = AnimusOutput::new(0, "eDP-1", 2560, 1600, 60000);
    output.update_from_edid("Apple", "MacBook Pro 14\"", 310, 195);
    assert_eq!(output.scale, 2);
    assert_eq!(output.scale_halves, 4);
    assert_eq!(output.logical_width(), 1280);
    assert_eq!(output.logical_height(), 800);
}

#[test]
fn output_fractional_and_unknown_size() {
    let mut output = AnimusOutput::new(1, "DP-2", 2560, 1440, 60000);
    output.update_from_edid("Dell", "U2723", 400, 225);
    assert_eq!((output.scale, output.scale_halves), (1, 3));
    assert_eq!(output.logical_width(), 1706);
    assert_eq!(output.logical_height(), 960);
    output.update_from_edid("Dell", "U2723", 0, 0);
    assert_eq!((output.scale, output.scale_halves), (1, 2));
    assert_eq!(output.logical_width(), 2560);
    assert_eq!(output.make, "Dell");
    assert!(!output.is_primary);
}

#[test]
fn output_logical_size_at_unusual_scales() {
    let mut output = AnimusOutput::new(2, "HDMI-1", 3_000_000_000, 0, 60000);
    output.scale_halves = 1;
    assert_eq!(output.logical_width(), u32::MAX);
    assert_eq!(output.logical_height(), 0);
    output.scale_halves = 0;
    assert_eq!(output.logical_width(), u32::MAX);
    assert_eq!(output.logical_height(), 0);
}

#[test]
fn test_output_manager_multi_head() {
    let mut mgr = OutputManager::new();
    mgr.add_output(AnimusOutput::new(0, "DP-1", 1920, 1080, 144000));
    mgr.add_output(AnimusOutput::new(1, "HDMI-A-1", 1920, 1080, 60000));
    assert_eq!(mgr.outputs.len(), 2);
    assert_eq!(mgr.outputs[1].x, 1920);
    let (w, h) = mgr.total_bounds();
    assert_eq!(w, 3840);
    assert_eq!(h, 1080);
    assert_eq!(mgr.primary().unwrap().connector, "DP-1");
}

#[test]
fn output_manager_empty_and_primary_fallback() {
    let mut mgr = OutputManager::new();
    assert_eq!(mgr.total_bounds(), (1920, 1080));
    assert!(mgr.primary().is_none());
    mgr.add_output(AnimusOutput::new(3, "DP-3", 1280, 1024, 60000));
    mgr.add_output(AnimusOutput::new(4, "DP-4", 800, 600, 60000));
    assert_eq!(mgr.primary().unwrap().id, 3);
    assert_eq!(mgr.total_bounds(), (2080, 1024));
}

#[test]
fn test_seat_pointer_motion_and_focus() {
    let mut seat = AnimusSeat::new("seat0");
    assert!(seat.pointer_focus.is_none());

    assert!(seat.dispatch_pointer_motion(Some(42)));
    assert_eq!(seat.pointer_focus, Some(42));
    assert!(!seat.dispatch_pointer_motion(Some(42)));

    assert_eq!(seat.dispatch_pointer_button(PointerButton::Left, ButtonState::Pressed, 1), Some(42));
    seat.dispatch_pointer_motion(None);
    assert!(seat.pointer_focus.is_none());
}

#[test]
fn test_seat_keyboard_focus() {
    let mut seat = AnimusSeat::new("seat0");
    seat.set_keyboard_focus(Some(1), 100);
    assert_eq!(seat.focused_keyboard_surface, Some(1));
    assert_eq!(seat.dispatch_key(30, KeyState::Pressed, 101), Some(1));
    seat.set_keyboard_focus(None, 102);
    assert!(seat.focused_keyboard_surface.is_none());
    assert_eq!(seat.dispatch_key(30, KeyState::Released, 103), None);
}

#[test]
fn seat_codes_and_modifiers() {
    assert_eq!(PointerButton::Left.code(), 0x110);
    assert_eq!(PointerButton::Forward.code(), 0x115);
    assert_eq!(PointerButton::from_code(0x111), PointerButton::Right);
    assert_eq!(PointerButton::from_code(0x999), PointerButton::Left);
    assert_eq!(KeyState::Pressed.code(), 1);
    assert_eq!(ButtonState::Released.code(), 0);
    let mut seat = AnimusSeat::new("seat0");
    seat.initialize_libinput();
    assert!(seat.libinput_active);
    let mods = ModifierState { shift: true, ..Default::default() };
    seat.update_modifiers(mods);
    assert_eq!(seat.modifiers, mods);
}

#[test]
fn test_xdg_shell_window_lifecycle() {
    let mut state = XdgShellState::new();

    let filer_id = state.create_toplevel("filer");
    assert_eq!(state.surfaces.len(), 1);
    assert!(!state.surfaces[0].configure_acked);

    state.surfaces[0].ack_configure(1);
    assert!(state.surfaces[0].configure_acked);

    state.surfaces[0].commit_buffer();
    assert!(state.surfaces[0].is_renderable());

    let _term_id = state.create_toplevel("terminow");
    assert_eq!(state.surfaces.len(), 2);
    assert!(state.focused().is_some());
    assert_eq!(state.focused().unwrap().app_id, "terminow");

    state.focus(filer_id);
    assert_eq!(state.focused().unwrap().app_id, "filer");

    state.destroy_toplevel(filer_id);
    assert_eq!(state.surfaces.len(), 1);
    assert_eq!(state.surfaces[0].app_id, "terminow");
}

#[test]
fn xdg_focus_marks_one_surface_and_ids_count_up() {
    let mut state = XdgShellState::new();
    let a = state.create_toplevel("a");
    let b = state.create_toplevel("b");
    assert_eq!((a, b), (1, 2));
    assert!(!state.surfaces[0].is_focused);
    assert!(state.surfaces[1].is_focused);
    state.focus(a);
    assert_eq!(state.focus_stack, vec![2, 1]);
    assert!(state.surfaces[0].is_focused && !state.surfaces[1].is_focused);
    state.surfaces[0].send_configure(7);
    assert!(!state.surfaces[0].is_renderable());
    state.destroy_toplevel(a);
    assert_eq!(state.focused().unwrap().surface_id, b);
    state.destroy_toplevel(b);
    assert!(state.focused().is_none());
}

fn filer_menu() -> AppMenuDefinition {
    AppMenuDefinition {
        app_name: "Filer".to_string(),
        menus: vec![
            MenuGroup {
                title: "File".to_string(),
                items: vec![MenuItem {
                    label: "New Window".to_string(),
                    action_id: "file.new_window".to_string(),
                    shortcut: Some("⌘N".to_string()),
                    enabled: true,
                    is_separator: false,
                }],
            },
            MenuGroup {
                title: "Edit".to_string(),
                items: vec![MenuItem {
                    label: String::new(),
                    action_id: String::new(),
                    shortcut: None,
                    enabled: false,
                    is_separator: true,
                }],
            },
        ],
    }
}

#[test]
fn test_ae_shell_surface_menu_and_badge() {
    let mut mgr = AeShellManager::new();
    mgr.register_surface(1, "filer");

    mgr.surfaces[0].handle_set_menu(Some(filer_menu()));
    let menu = mgr.get_menu_for_surface(1).unwrap();
    assert_eq!(menu.app_name, "Filer");
    assert_eq!(menu.menus.len(), 2);
    assert_eq!(menu.menus[0].items[0].shortcut, Some("⌘N".to_string()));

    mgr.surfaces[0].handle_set_badge(3);
    assert_eq!(mgr.get_badge_for_app("filer"), 3);
    mgr.surfaces[0].handle_set_badge(0);
    assert_eq!(mgr.get_badge_for_app("filer"), 0);

    mgr.surfaces[0].handle_request_attention(1);
    assert_eq!(mgr.surfaces_requesting_attention().len(), 1);
    assert!(mgr.surfaces_requesting_attention()[0].attention_critical);
    mgr.clear_attention(1);
    assert!(mgr.surfaces_requesting_attention().is_empty());
}

#[test]
fn ae_shell_invalid_menu_keeps_previous() {
    let mut s = AeSurfaceState::new(1, "filer");
    s.handle_set_menu(Some(filer_menu()));
    s.handle_set_menu(None);
    assert_eq!(s.menu.as_ref().unwrap().app_name, "Filer");
    let mgr = AeShellManager::new();
    assert!(mgr.get_menu_for_surface(9).is_none());
    assert_eq!(mgr.get_badge_for_app("nobody"), 0);
}

#[test]
fn test_ae_shell_altitude_mapping() {
    let mut surface = AeSurfaceState::new(1, "pathfinder");
    surface.handle_set_altitude(4);
    assert_eq!(surface.altitude, SurfaceAltitude::Floating);
    surface.handle_set_altitude(2);
    assert_eq!(surface.altitude, SurfaceAltitude::Mid);
    surface.handle_set_altitude(0);
    assert_eq!(surface.altitude.blur_radius(), 0);
    surface.handle_set_altitude(99);
    assert_eq!(surface.altitude, SurfaceAltitude::Mid);
    assert_eq!(surface.altitude.blur_radius(), 20);
    surface.handle_request_attention(0);
    assert!(surface.is_requesting_attention && !surface.attention_critical);
}

#[test]
fn test_ae_shell_protocol_lifecycle() {
    let mut proto = AEShellProtocolManager::new();

    proto.register_surface(1, "org.vitusos.filer".to_string());
    let ev = proto.set_application_menu(1, "{\"menu\": [\"File\", \"Edit\"]}".to_string());
    assert!(matches!(ev, Some(ShellEvent::DBusMenuRegistered { ref app_id, .. }) if app_id == "org.vitusos.filer"));
    proto.set_badge_count(1, 3);
    let ev = proto.request_attention(1);
    assert!(matches!(ev, Some(ShellEvent::DockBounce { ref app_id }) if app_id == "org.vitusos.filer"));

    assert_eq!(proto.surface(1).unwrap().badge_count, 3);
    assert!(proto.surface(1).unwrap().attention_requested);

    proto.destroy_surface(1);
    assert!(proto.surface(1).is_none());
}

#[test]
fn ae_shell_protocol_badge_clamp_and_unknown_surface() {
    let mut proto = AEShellProtocolManager::new();
    proto.register_surface(5, "x".to_string());
    proto.set_badge_count(5, -7);
    assert_eq!(proto.surface(5).unwrap().badge_count, -1);
    assert!(proto.request_attention(6).is_none());
    assert!(proto.set_application_menu(6, "{}".to_string()).is_none());
}

#[test]
fn output_scale_switches_above_192_dpi() {
    let mut out = AnimusOutput::new(1, "DP-1", 1920, 1080, 60000);
    out.update_from_edid("M", "X", 250, 140);
    assert_eq!((out.scale, out.scale_halves), (2, 4));
    // exactly 192 DPI: 1920 px over 254 mm
    out.update_from_edid("M", "X", 254, 143);
    assert_eq!((out.scale, out.scale_halves), (1, 3));
    // exactly 144 DPI: 1440 px wide panel of 254 mm
    let mut low = AnimusOutput::new(2, "DP-2", 1440, 900, 60000);
    low.update_from_edid("M", "X", 254, 159);
    assert_eq!((low.scale, low.scale_halves), (1, 3));
    low.update_from_edid("M", "X", 255, 159);
    assert_eq!((low.scale, low.scale_halves), (1, 2));
}
