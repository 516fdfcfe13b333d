//! The tray menu: what it shows for a snapshot and what its items do.
use vstd::prelude::*;

use crate::app_state::{AuthState, CompanionSnapshot, TosuConnection};
use crate::text::str_equal;

verus! {

/// The label of the tray's status line for a connection state.
pub open spec fn status_label_text(connection: TosuConnection) -> Seq<char> {
    match connection {
        TosuConnection::Disabled => "tosu: tracking disabled"@,
        TosuConnection::Searching => "tosu: searching"@,
        TosuConnection::Connecting => "tosu: connecting"@,
        TosuConnection::Connected => "tosu: connected"@,
        TosuConnection::Stale => "tosu: connection stale"@,
        TosuConnection::Unavailable => "tosu: unavailable"@,
        TosuConnection::Error => "tosu: connection error"@,
    }
}

/// The tray's status line names the connection state: each state has its
/// own label, and the line reads "tosu: connected" only while tosu is
/// connected.
pub proof fn lemma_status_labels_name_the_state(c: TosuConnection)
    ensures
        status_label_text(TosuConnection::Disabled) == "tosu: tracking disabled"@,
        status_label_text(TosuConnection::Searching) == "tosu: searching"@,
        status_label_text(TosuConnection::Connecting) == "tosu: connecting"@,
        status_label_text(TosuConnection::Connected) == "tosu: connected"@,
        status_label_text(TosuConnection::Stale) == "tosu: connection stale"@,
        status_label_text(TosuConnection::Unavailable) == "tosu: unavailable"@,
        status_label_text(TosuConnection::Error) == "tosu: connection error"@,
        status_label_text(c) == "tosu: connected"@ <==> c == TosuConnection::Connected,
{
    reveal_strlit("tosu: tracking disabled");
    reveal_strlit("tosu: searching");
    reveal_strlit("tosu: connecting");
    reveal_strlit("tosu: connected");
    reveal_strlit("tosu: connection stale");
    reveal_strlit("tosu: unavailable");
    reveal_strlit("tosu: connection error");
    let connected = "tosu: connected"@;
    assert(connected.len() == 15);
    match c {
        TosuConnection::Searching => assert("tosu: searching"@[6] != connected[6]),
        TosuConnection::Connected => {},
        _ => assert(status_label_text(c).len() != connected.len()),
    }
}

/// How the tray menu shows a snapshot.
#[derive(Clone, Copy, Debug, PartialEq, Eq)]
pub struct TrayMenuView {
    pub status_label: &'static str,
    pub tracking_checked: bool,
    pub launch_enabled: bool,
    pub stop_enabled: bool,
    pub sign_out_enabled: bool,
}

/// How the tray menu shows a snapshot: the connection state, whether
/// tracking is on, launching only while no tosu is connected and Companion
/// owns none, stopping only Companion's own tosu, and signing out only when
/// signed in.
pub fn tray_menu_view(snapshot: &CompanionSnapshot) -> (r: TrayMenuView)
    ensures
        r.status_label@ == status_label_text(snapshot.tosu.connection),
        r.tracking_checked == snapshot.tracking_enabled,
        r.launch_enabled == (snapshot.tosu.connection != TosuConnection::Connected
            && !snapshot.tosu.process_owned),
        r.stop_enabled == snapshot.tosu.process_owned,
        r.sign_out_enabled == (snapshot.auth.state == AuthState::SignedIn || snapshot.auth.state
            == AuthState::Refreshing),
{
    let status_label = match snapshot.tosu.connection {
        TosuConnection::Disabled => "tosu: tracking disabled",
        TosuConnection::Searching => "tosu: searching",
        TosuConnection::Connecting => "tosu: connecting",
        TosuConnection::Connected => "tosu: connected",
        TosuConnection::Stale => "tosu: connection stale",
        TosuConnection::Unavailable => "tosu: unavailable",
        TosuConnection::Error => "tosu: connection error",
    };
    TrayMenuView {
        status_label,
        tracking_checked: snapshot.tracking_enabled,
        launch_enabled: snapshot.tosu.connection != TosuConnection::Connected
            && !snapshot.tosu.process_owned,
        stop_enabled: snapshot.tosu.process_owned,
        sign_out_enabled: match snapshot.auth.state {
            AuthState::SignedIn | AuthState::Refreshing => true,
            _ => false,
        },
    }
}

/// What a tray menu item does.
#[derive(Clone, Copy, Debug, PartialEq, Eq, Structural)]
pub enum MenuAction {
    ShowWindow,
    ToggleTracking,
    LaunchTosu,
    StopTosu,
    SignOut,
    Quit,
    Nothing,
}

/// What the tray menu item with identifier `id` does.
pub open spec fn action_of(id: Seq<char>) -> MenuAction {
    if id == "open"@ {
        MenuAction::ShowWindow
    } else if id == "tracking"@ {
        MenuAction::ToggleTracking
    } else if id == "launch-tosu"@ {
        MenuAction::LaunchTosu
    } else if id == "stop-tosu"@ {
        MenuAction::StopTosu
    } else if id == "sign-out"@ {
        MenuAction::SignOut
    } else if id == "quit"@ {
        MenuAction::Quit
    } else {
        MenuAction::Nothing
    }
}

/// Each tray menu item does what its identifier says: `open` shows the
/// window, `tracking` toggles tracking, `launch-tosu` and `stop-tosu` launch
/// and stop tosu, `sign-out` signs out and `quit` quits; an empty identifier
/// does nothing.
pub proof fn lemma_menu_items_do_what_they_name()
    ensures
        action_of("open"@) == MenuAction::ShowWindow,
        action_of("tracking"@) == MenuAction::ToggleTracking,
        action_of("launch-tosu"@) == MenuAction::LaunchTosu,
        action_of("stop-tosu"@) == MenuAction::StopTosu,
        action_of("sign-out"@) == MenuAction::SignOut,
        action_of("quit"@) == MenuAction::Quit,
        action_of(Seq::<char>::empty()) == MenuAction::Nothing,
{
    reveal_strlit("open");
    reveal_strlit("tracking");
    reveal_strlit("launch-tosu");
    reveal_strlit("stop-tosu");
    reveal_strlit("sign-out");
    reveal_strlit("quit");
    assert("tracking"@.len() != "open"@.len());
    assert("launch-tosu"@.len() != "open"@.len());
    assert("launch-tosu"@.len() != "tracking"@.len());
    assert("stop-tosu"@.len() != "open"@.len());
    assert("stop-tosu"@.len() != "tracking"@.len());
    assert("stop-tosu"@.len() != "launch-tosu"@.len());
    assert("sign-out"@.len() != "open"@.len());
    assert("sign-out"@[0] != "tracking"@[0]);
    assert("sign-out"@.len() != "launch-tosu"@.len());
    assert("sign-out"@.len() != "stop-tosu"@.len());
    assert("quit"@[0] != "open"@[0]);
    assert("quit"@.len() != "tracking"@.len());
    assert("quit"@.len() != "launch-tosu"@.len());
    assert("quit"@.len() != "stop-tosu"@.len());
    assert("quit"@.len() != "sign-out"@.len());
    let e = Seq::<char>::empty();
    assert(e.len() != "open"@.len());
    assert(e.len() != "tracking"@.len());
    assert(e.len() != "launch-tosu"@.len());
    assert(e.len() != "stop-tosu"@.len());
    assert(e.len() != "sign-out"@.len());
    assert(e.len() != "quit"@.len());
}

/// What the tray menu item with identifier `id` does.
pub fn menu_action(id: &str) -> (r: MenuAction)
    ensures
        r == action_of(id@),
{
    if str_equal(id, "open") {
        MenuAction::ShowWindow
    } else if str_equal(id, "tracking") {
        MenuAction::ToggleTracking
    } else if str_equal(id, "launch-tosu") {
        MenuAction::LaunchTosu
    } else if str_equal(id, "stop-tosu") {
        MenuAction::StopTosu
    } else if str_equal(id, "sign-out") {
        MenuAction::SignOut
    } else if str_equal(id, "quit") {
        MenuAction::Quit
    } else {
        MenuAction::Nothing
    }
}

} // verus!
