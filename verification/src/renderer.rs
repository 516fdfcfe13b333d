//! The choice of GTK backend on Linux desktops.
use vstd::prelude::*;

use crate::text::{chars_contain, chars_equal, chars_of, contains, lower, lower_chars};

verus! {

/// The GDK backend to force, if any: a forced choice wins; on Wayland
/// sessions outside GNOME with XWayland available, X11 is preferred because
/// WebKitGTK's native decorations are unreliable there.
pub open spec fn backend_choice(
    force_wayland: bool,
    force_x11: bool,
    session_type: Seq<char>,
    desktop: Seq<char>,
    display_present: bool,
) -> Option<Seq<char>> {
    if force_wayland {
        Some("wayland"@)
    } else if force_x11 {
        Some("x11"@)
    } else if lower(session_type) != "wayland"@ {
        None
    } else if !contains(lower(desktop), "gnome"@) && display_present {
        Some("x11"@)
    } else {
        None
    }
}

/// The GDK backend to force, if any, from whether `HANAMI_FORCE_WAYLAND` and
/// `HANAMI_FORCE_X11` are set, the session type and current desktop (empty
/// where unset) and whether `DISPLAY` is set.
pub fn renderer_backend(
    force_wayland: bool,
    force_x11: bool,
    session_type: &str,
    desktop: &str,
    display_present: bool,
) -> (r: Option<&'static str>)
    ensures
        match backend_choice(force_wayland, force_x11, session_type@, desktop@, display_present) {
            Some(b) => r matches Some(x) && x@ == b,
            None => r is None,
        },
{
    if force_wayland {
        return Some("wayland");
    }
    if force_x11 {
        return Some("x11");
    }
    let session = lower_chars(&chars_of(session_type));
    if !chars_equal(&session, &chars_of("wayland")) {
        return None;
    }
    let gnome = chars_contain(&lower_chars(&chars_of(desktop)), &chars_of("gnome"));
    if !gnome && display_present {
        Some("x11")
    } else {
        None
    }
}

} // verus!
