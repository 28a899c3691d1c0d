//! The decisions of the desktop client around the synchronisation: which
//! window to show, which settings to accept, what a login changes, and what
//! the tray menu does.
use vstd::prelude::*;
use crate::api::pairs_view;
use crate::types::Config;

verus! {

/// The window the client leads to.
#[derive(Clone, Copy, Debug, PartialEq, Eq, Structural)]
pub enum Route {
    /// First-time settings: server and folder.
    InitialConfiguration,
    /// Credentials are missing.
    Login,
    /// Everything is set: the main window, with synchronisation running.
    Main,
}

/// Where a client with `config` belongs: to the first-time settings until it
/// is configured, then to the login until it holds both a user name and a
/// password, then to the main window.
pub open spec fn route_for(config: Config) -> Route {
    if !config.is_configured {
        Route::InitialConfiguration
    } else if config.username is None || config.password is None {
        Route::Login
    } else {
        Route::Main
    }
}

/// Where the client goes when it starts.
pub fn startup_route(config: &Config) -> (res: Route)
    ensures
        res == route_for(*config),
{
    if !config.is_configured {
        Route::InitialConfiguration
    } else if config.username.is_none() || config.password.is_none() {
        Route::Login
    } else {
        Route::Main
    }
}

/// What a request to show the main window does.
#[derive(Clone, Copy, Debug, PartialEq, Eq, Structural)]
pub enum MainWindowAction {
    OpenInitialConfiguration,
    OpenLogin,
    FocusExisting,
    CreateMain,
}

/// The action for a request to show the main window, where
/// `main_window_open` tells whether it is already open.
pub open spec fn main_window_action_for(config: Config, main_window_open: bool) -> MainWindowAction {
    match route_for(config) {
        Route::InitialConfiguration => MainWindowAction::OpenInitialConfiguration,
        Route::Login => MainWindowAction::OpenLogin,
        Route::Main => if main_window_open {
            MainWindowAction::FocusExisting
        } else {
            MainWindowAction::CreateMain
        },
    }
}

/// What to do on a request to show the main window.
pub fn main_window_action(config: &Config, main_window_open: bool) -> (res: MainWindowAction)
    ensures
        res == main_window_action_for(*config, main_window_open),
{
    match startup_route(config) {
        Route::InitialConfiguration => MainWindowAction::OpenInitialConfiguration,
        Route::Login => MainWindowAction::OpenLogin,
        Route::Main => if main_window_open {
            MainWindowAction::FocusExisting
        } else {
            MainWindowAction::CreateMain
        },
    }
}

/// The main window is shown, whether focused or created, exactly for the
/// settings under which the client starts into it; otherwise a request to
/// show it leads where starting would.
pub proof fn law_main_window_follows_route(config: Config, main_window_open: bool)
    ensures
        (main_window_action_for(config, main_window_open) == MainWindowAction::FocusExisting
            || main_window_action_for(config, main_window_open) == MainWindowAction::CreateMain)
            <==> route_for(config) == Route::Main,
        main_window_action_for(config, main_window_open) == MainWindowAction::OpenLogin
            <==> route_for(config) == Route::Login,
        main_window_action_for(config, main_window_open)
            == MainWindowAction::OpenInitialConfiguration <==> route_for(config)
            == Route::InitialConfiguration,
{
}

/// The error entries for a refused setting: the server's first, then the folder's.
pub open spec fn settings_errors(server_failed: bool, folder_failed: bool) -> Seq<(Seq<char>, Seq<char>)> {
    (if server_failed {
        seq![("server"@, "server not reachable"@)]
    } else {
        seq![]
    }) + (if folder_failed {
        seq![("folder"@, "folder does not exist"@)]
    } else {
        seq![]
    })
}

/// The error entries, as strings.
fn settings_error_entries(server_failed: bool, folder_failed: bool) -> (res: Vec<(String, String)>)
    ensures
        pairs_view(res@) == settings_errors(server_failed, folder_failed),
{
    let mut errors: Vec<(String, String)> = Vec::new();
    if server_failed {
        errors.push((String::from_str("server"), String::from_str("server not reachable")));
    }
    if folder_failed {
        errors.push((String::from_str("folder"), String::from_str("folder does not exist")));
    }
    assert(pairs_view(errors@) =~= settings_errors(server_failed, folder_failed));
    errors
}

/// Whether changed settings name another server, which must then answer.
pub fn needs_server_check(current: &Config, new: &Config) -> (res: bool)
    ensures
        res == (new.server_url@ != current.server_url@),
{
    new.server_url != current.server_url
}

/// Whether changed settings name another folder, which must then exist.
pub fn needs_folder_check(current: &Config, new: &Config) -> (res: bool)
    ensures
        res == (new.folder_path@ != current.folder_path@),
{
    new.folder_path != current.folder_path
}

/// Whether changing `current` to `new` is refused because the new server did not answer.
pub open spec fn update_server_failed(current: Config, new: Config, server_reachable: bool) -> bool {
    new.server_url@ != current.server_url@ && !server_reachable
}

/// Whether changing `current` to `new` is refused because the new folder is not a folder.
pub open spec fn update_folder_failed(current: Config, new: Config, folder_is_dir: bool) -> bool {
    new.folder_path@ != current.folder_path@ && !folder_is_dir
}

/// The outcome of changing the settings from `current` to `new`:
/// `server_reachable` is whether the new server answered its health check and
/// `folder_is_dir` whether the new folder exists as a folder; each counts only
/// where that setting changed. The new settings are taken unless one of those
/// checks failed.
pub fn update_config_outcome(current: &Config, new: Config, server_reachable: bool, folder_is_dir: bool) -> (res: Result<Config, Vec<(String, String)>>)
    ensures
        match res {
            Ok(c) => !update_server_failed(*current, new, server_reachable)
                && !update_folder_failed(*current, new, folder_is_dir) && c == new,
            Err(e) => (update_server_failed(*current, new, server_reachable)
                || update_folder_failed(*current, new, folder_is_dir)) && pairs_view(e@)
                == settings_errors(
                update_server_failed(*current, new, server_reachable),
                update_folder_failed(*current, new, folder_is_dir),
            ),
        },
        (new.folder_path@ != current.folder_path@ && !folder_is_dir) ==> res is Err
            && pairs_view(res->Err_0@).contains(("folder"@, "folder does not exist"@)),
        (new.server_url@ != current.server_url@ && !server_reachable) ==> res is Err
            && pairs_view(res->Err_0@).contains(("server"@, "server not reachable"@)),
        ((new.folder_path@ == current.folder_path@ || folder_is_dir)
            && (new.server_url@ == current.server_url@ || server_reachable)) ==> res == Ok::<
            Config,
            Vec<(String, String)>,
        >(new),
{
    proof {
        law_settings_checks(*current, new, server_reachable, folder_is_dir);
    }
    let server_failed = needs_server_check(current, &new) && !server_reachable;
    let folder_failed = needs_folder_check(current, &new) && !folder_is_dir;
    if server_failed || folder_failed {
        Err(settings_error_entries(server_failed, folder_failed))
    } else {
        Ok(new)
    }
}

/// A settings change is refused with the folder entry exactly when the
/// folder changed to something that is not a folder, and with the server
/// entry exactly when the server changed to one that did not answer, each
/// whatever the other setting does; with neither, it is taken.
pub proof fn law_settings_checks(current: Config, new: Config, server_reachable: bool, folder_is_dir: bool)
    ensures
        update_folder_failed(current, new, folder_is_dir) <==> (new.folder_path@
            != current.folder_path@ && !folder_is_dir),
        update_server_failed(current, new, server_reachable) <==> (new.server_url@
            != current.server_url@ && !server_reachable),
        settings_errors(
            update_server_failed(current, new, server_reachable),
            update_folder_failed(current, new, folder_is_dir),
        ).contains(("folder"@, "folder does not exist"@)) <==> (new.folder_path@
            != current.folder_path@ && !folder_is_dir),
        settings_errors(
            update_server_failed(current, new, server_reachable),
            update_folder_failed(current, new, folder_is_dir),
        ).contains(("server"@, "server not reachable"@)) <==> (new.server_url@
            != current.server_url@ && !server_reachable),
{
    reveal_strlit("folder");
    reveal_strlit("server");
    let sf = update_server_failed(current, new, server_reachable);
    let ff = update_folder_failed(current, new, folder_is_dir);
    let e = settings_errors(sf, ff);
    let fe = ("folder"@, "folder does not exist"@);
    let se = ("server"@, "server not reachable"@);
    assert("folder"@ != "server"@) by {
        assert("folder"@[0] != "server"@[0]);
    }
    if ff {
        assert(e[e.len() - 1] == fe);
    }
    if sf {
        assert(e[0] == se);
    }
    if e.contains(fe) {
        let i = choose|i: int| 0 <= i < e.len() && e[i] == fe;
        if !ff {
            assert(e[i] == se);
        }
    }
    if e.contains(se) {
        let i = choose|i: int| 0 <= i < e.len() && e[i] == se;
        if !sf {
            assert(e[i] == fe);
        }
    }
}

/// An accepted login sets the user name, password and both tokens to the new
/// values and keeps the server address, the folder and the configured flag.
pub proof fn law_login_keeps_settings(current: Config, username: String, password: String, token: String, refresh_token: String)
    ensures
        logged_in(current, username, password, token, refresh_token).username == Some(username),
        logged_in(current, username, password, token, refresh_token).password == Some(password),
        logged_in(current, username, password, token, refresh_token).token == Some(token),
        logged_in(current, username, password, token, refresh_token).refresh_token == Some(refresh_token),
        logged_in(current, username, password, token, refresh_token).server_url == current.server_url,
        logged_in(current, username, password, token, refresh_token).folder_path == current.folder_path,
        logged_in(current, username, password, token, refresh_token).is_configured == current.is_configured,
{
}

/// The settings after a successful first-time configuration.
pub open spec fn configured(current: Config, folder_path: String, server_url: String) -> Config {
    Config {
        username: current.username,
        password: current.password,
        server_url: server_url,
        folder_path: folder_path,
        token: current.token,
        refresh_token: current.refresh_token,
        is_configured: true,
    }
}

/// The outcome of the first-time configuration from `current`, with the
/// server address `server_url` already stripped of trailing slashes:
/// `server_reachable` is whether the server answered its health check and
/// `folder_exists` whether the folder exists. Both must hold.
pub fn initial_config_outcome(current: Config, folder_path: String, server_url: String, server_reachable: bool, folder_exists: bool) -> (res: Result<Config, Vec<(String, String)>>)
    ensures
        match res {
            Ok(c) => server_reachable && folder_exists && c == configured(current, folder_path, server_url),
            Err(e) => (!server_reachable || !folder_exists) && pairs_view(e@) == settings_errors(!server_reachable, !folder_exists),
        },
{
    if !server_reachable || !folder_exists {
        return Err(settings_error_entries(!server_reachable, !folder_exists));
    }
    Ok(Config {
        username: current.username,
        password: current.password,
        server_url,
        folder_path,
        token: current.token,
        refresh_token: current.refresh_token,
        is_configured: true,
    })
}

/// The message for a refused login.
pub open spec fn login_refused_message() -> Seq<char> {
    "Username or password incorrect"@
}

/// The settings after a successful login.
pub open spec fn logged_in(current: Config, username: String, password: String, token: String, refresh_token: String) -> Config {
    Config {
        username: Some(username),
        password: Some(password),
        server_url: current.server_url,
        folder_path: current.folder_path,
        token: Some(token),
        refresh_token: Some(refresh_token),
        is_configured: current.is_configured,
    }
}

/// The outcome of a login: `accepted` is whether the server answered with
/// success, in which case it sent both tokens.
pub fn login_outcome(current: Config, username: String, password: String, accepted: bool, token: Option<String>, refresh_token: Option<String>) -> (res: Result<Config, String>)
    requires
        accepted ==> token is Some && refresh_token is Some,
    ensures
        accepted ==> res == Ok::<Config, String>(logged_in(current, username, password, token->0, refresh_token->0)),
        accepted ==> (res matches Ok(c) && c.username == Some(username) && c.password == Some(
            password,
        ) && c.token == token && c.refresh_token == refresh_token && c.server_url
            == current.server_url && c.folder_path == current.folder_path && c.is_configured
            == current.is_configured),
        !accepted ==> res is Err && res->Err_0@ == login_refused_message(),
{
    if !accepted {
        return Err(String::from_str("Username or password incorrect"));
    }
    Ok(Config {
        username: Some(username),
        password: Some(password),
        server_url: current.server_url,
        folder_path: current.folder_path,
        token: Some(token.unwrap()),
        refresh_token: Some(refresh_token.unwrap()),
        is_configured: current.is_configured,
    })
}

/// An event of the tray icon.
#[derive(Debug)]
pub enum TrayEvent {
    LeftClick,
    MenuItemClick { id: String },
    Other,
}

/// What the tray does.
#[derive(Clone, Copy, Debug, PartialEq, Eq, Structural)]
pub enum TrayAction {
    ShowMain,
    OpenSettings,
    Quit,
    Nothing,
}

/// The action for a tray event: a left click or the `show` item shows the
/// main window, `settings` opens the settings, `quit` quits.
pub open spec fn tray_action_for(event: TrayEvent) -> TrayAction {
    match event {
        TrayEvent::LeftClick => TrayAction::ShowMain,
        TrayEvent::MenuItemClick { id } => if id@ == "quit"@ {
            TrayAction::Quit
        } else if id@ == "show"@ {
            TrayAction::ShowMain
        } else if id@ == "settings"@ {
            TrayAction::OpenSettings
        } else {
            TrayAction::Nothing
        },
        TrayEvent::Other => TrayAction::Nothing,
    }
}

/// What to do for a tray event.
pub fn tray_action(event: &TrayEvent) -> (res: TrayAction)
    ensures
        res == tray_action_for(*event),
{
    match event {
        TrayEvent::LeftClick => TrayAction::ShowMain,
        TrayEvent::MenuItemClick { id } => {
            if *id == String::from_str("quit") {
                TrayAction::Quit
            } else if *id == String::from_str("show") {
                TrayAction::ShowMain
            } else if *id == String::from_str("settings") {
                TrayAction::OpenSettings
            } else {
                TrayAction::Nothing
            }
        },
        TrayEvent::Other => TrayAction::Nothing,
    }
}

} // verus!
