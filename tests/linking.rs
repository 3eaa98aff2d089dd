use firefly_runtime::{populate_externals, resolve, HostFn, LinkError};

const ALIASES: &[(&str, &str, &str, &str)] = &[
    ("g", "a", "graphics", "draw_arc"),
    ("g", "c", "graphics", "draw_circle"),
    ("g", "ca", "graphics", "set_canvas"),
    ("g", "cr", "graphics", "unset_canvas"),
    ("g", "cs", "graphics", "clear_screen"),
    ("g", "e", "graphics", "draw_ellipse"),
    ("g", "i", "graphics", "draw_image"),
    ("g", "l", "graphics", "draw_line"),
    ("g", "p", "graphics", "draw_point"),
    ("g", "q", "graphics", "draw_qr"),
    ("g", "r", "graphics", "draw_rect"),
    ("g", "rr", "graphics", "draw_rounded_rect"),
    ("g", "s", "graphics", "draw_sector"),
    ("g", "sc", "graphics", "set_color"),
    ("g", "si", "graphics", "draw_sub_image"),
    ("g", "t", "graphics", "draw_triangle"),
    ("g", "x", "graphics", "draw_text"),
    ("i", "p", "input", "read_pad"),
    ("i", "b", "input", "read_buttons"),
    ("n", "l", "net", "load_stash"),
    ("n", "m", "net", "get_me"),
    ("n", "p", "net", "get_peers"),
    ("n", "s", "net", "save_stash"),
    ("s", "p", "stats", "add_progress"),
    ("s", "s", "stats", "add_score"),
    ("m", "d", "misc", "log_debug"),
    ("m", "e", "misc", "log_error"),
    ("m", "n", "misc", "get_name"),
    ("m", "q", "misc", "quit"),
    ("m", "r", "misc", "get_random"),
    ("m", "s", "misc", "set_seed"),
];

#[test]
fn aliases_resolve_like_full_names() {
    for (m, n, fm, fname) in ALIASES {
        let short = resolve(m, n, false);
        assert!(short.is_ok(), "{m}.{n}");
        assert_eq!(short, resolve(fm, fname, false), "{m}.{n}");
        assert_eq!(resolve(m, n, true), resolve(fm, fname, true));
    }
}

#[test]
fn full_names_resolve() {
    assert_eq!(resolve("graphics", "draw_point", false), Ok(HostFn::DrawPoint));
    assert_eq!(resolve("audio", "mod_sine", false), Ok(HostFn::ModSine));
    assert_eq!(resolve("fs", "load_file", false), Ok(HostFn::LoadFile));
    assert_eq!(resolve("misc", "set_conn_status", false), Ok(HostFn::SetConnStatus));
    assert_eq!(resolve("menu", "open_menu", false), Ok(HostFn::OpenMenu));
    assert_eq!(
        resolve("wasi_snapshot_preview1", "fd_write", false),
        Ok(HostFn::FdWrite)
    );
    assert_eq!(resolve("sudo", "load_file", true), Ok(HostFn::SudoLoadFile));
    assert_eq!(resolve("sudo", "run_app", true), Ok(HostFn::SudoRunApp));
}

#[test]
fn unknown_and_disabled_imports() {
    assert_eq!(resolve("graphics", "draw_pixel", false), Err(LinkError::UnknownHostFunction));
    assert_eq!(resolve("gfx", "draw_point", false), Err(LinkError::UnknownHostFunction));
    assert_eq!(resolve("g", "draw_point", false), Err(LinkError::UnknownHostFunction));
    assert_eq!(resolve("sudo", "run_app", false), Err(LinkError::UsedDisabledSudoHostFunction));
    assert_eq!(resolve("sudo", "nope", true), Err(LinkError::UnknownHostFunction));
    assert_eq!(resolve("", "", true), Err(LinkError::UnknownHostFunction));
}

#[test]
fn populate_in_order_and_stop_at_first_error() {
    let imports = vec![
        ("m".to_string(), "r".to_string()),
        ("graphics".to_string(), "clear_screen".to_string()),
    ];
    assert_eq!(
        populate_externals(&imports, false),
        Ok(vec![HostFn::GetRandom, HostFn::ClearScreen])
    );
    let bad = vec![
        ("m".to_string(), "r".to_string()),
        ("sudo".to_string(), "list_dirs".to_string()),
        ("x".to_string(), "y".to_string()),
    ];
    assert_eq!(
        populate_externals(&bad, false),
        Err(LinkError::UsedDisabledSudoHostFunction)
    );
    assert_eq!(populate_externals(&bad, true), Err(LinkError::UnknownHostFunction));
    assert_eq!(populate_externals(&vec![], false), Ok(vec![]));
}
