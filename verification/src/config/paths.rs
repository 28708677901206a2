//! Where configuration and statistics live, chosen from environment values.
//!
//! The rules take the values of the relevant variables (already read by the
//! caller) and give back the directory as text. Unix rules join with `/`,
//! Windows rules with `\`.
use crate::text::{concat, is_blank, is_blank_str, owned};
use vstd::prelude::*;

verus! {

/// An environment value that can name a directory: set, non-empty and not blank.
pub open spec fn spec_env_path(value: Option<Seq<char>>) -> Option<Seq<char>> {
    match value {
        Some(v) => if v.len() == 0 || is_blank(v) {
            None
        } else {
            Some(v)
        },
        None => None,
    }
}

pub open spec fn opt_view(o: Option<&str>) -> Option<Seq<char>> {
    match o {
        Some(s) => Some(s@),
        None => None,
    }
}

pub open spec fn opt_string_view(o: Option<String>) -> Option<Seq<char>> {
    match o {
        Some(s) => Some(s@),
        None => None,
    }
}

/// An environment value usable as a directory.
pub fn env_path_from_value(value: Option<&str>) -> (r: Option<&str>)
    ensures
        opt_view(r) == spec_env_path(opt_view(value)),
{
    match value {
        Some(v) => {
            if v.unicode_len() == 0 || is_blank_str(v) {
                None
            } else {
                Some(v)
            }
        },
        None => None,
    }
}

/// An absolute Unix path: it starts at the root.
pub open spec fn is_absolute_unix(p: Seq<char>) -> bool {
    p.len() > 0 && p[0] == '/'
}

/// An absolute Windows path: a drive with a root (`C:\`, `C:/`) or a UNC or
/// verbatim prefix (`\\`).
pub open spec fn is_absolute_windows(p: Seq<char>) -> bool {
    ||| (p.len() >= 3 && (('A' <= p[0] && p[0] <= 'Z') || ('a' <= p[0] && p[0] <= 'z')) && p[1]
        == ':' && (p[2] == '\\' || p[2] == '/'))
    ||| (p.len() >= 2 && p[0] == '\\' && p[1] == '\\')
}

fn absolute_unix(p: &str) -> (r: bool)
    ensures
        r == is_absolute_unix(p@),
{
    p.unicode_len() > 0 && p.get_char(0) == '/'
}

fn absolute_windows(p: &str) -> (r: bool)
    ensures
        r == is_absolute_windows(p@),
{
    let n = p.unicode_len();
    if n >= 3 {
        let d = p.get_char(0);
        let colon = p.get_char(1);
        let root = p.get_char(2);
        if (('A' <= d && d <= 'Z') || ('a' <= d && d <= 'z')) && colon == ':' && (root == '\\'
            || root == '/') {
            return true;
        }
    }
    n >= 2 && p.get_char(0) == '\\' && p.get_char(1) == '\\'
}

/// `base` joined with `name` by `sep`, as `Path::join` does for a relative
/// `name`: no separator is added after one that is already there.
pub open spec fn spec_join(base: Seq<char>, name: Seq<char>, sep: char) -> Seq<char> {
    if base.len() > 0 && base.last() == sep {
        base + name
    } else {
        base + seq![sep] + name
    }
}

fn join(base: &str, name: &str, sep: char) -> (r: String)
    ensures
        r@ == spec_join(base@, name@, sep),
{
    let n = base.unicode_len();
    if n > 0 && base.get_char(n - 1) == sep {
        concat(base, name)
    } else {
        let mut r = owned(base);
        crate::text::push_char(&mut r, sep);
        r.append(name);
        r
    }
}

/// Unix: `$XDG_CONFIG_HOME` when absolute, else `$HOME/.config` when `HOME` is absolute.
pub open spec fn spec_config_dir_unix(xdg_config_home: Option<Seq<char>>, home: Option<Seq<char>>) -> Option<Seq<char>> {
    match spec_env_path(xdg_config_home) {
        Some(x) if is_absolute_unix(x) => Some(x),
        _ => match spec_env_path(home) {
            Some(h) => if is_absolute_unix(h) {
                Some(spec_join(h, ".config"@, '/'))
            } else {
                None
            },
            None => None,
        },
    }
}

/// The configuration base directory on Unix.
pub fn config_dir_from_env(xdg_config_home: Option<&str>, home: Option<&str>) -> (r: Option<String>)
    ensures
        opt_string_view(r) == spec_config_dir_unix(opt_view(xdg_config_home), opt_view(home)),
{
    if let Some(xdg) = env_path_from_value(xdg_config_home) {
        if absolute_unix(xdg) {
            return Some(owned(xdg));
        }
    }
    let home = env_path_from_value(home)?;
    if !absolute_unix(home) {
        return None;
    }
    Some(join(home, ".config", '/'))
}

/// Windows: `%APPDATA%` when absolute.
pub open spec fn spec_config_dir_windows(appdata: Option<Seq<char>>) -> Option<Seq<char>> {
    match spec_env_path(appdata) {
        Some(a) => if is_absolute_windows(a) {
            Some(a)
        } else {
            None
        },
        None => None,
    }
}

/// The configuration base directory on Windows.
pub fn windows_config_dir_from_env(appdata: Option<&str>) -> (r: Option<String>)
    ensures
        opt_string_view(r) == spec_config_dir_windows(opt_view(appdata)),
{
    let appdata = env_path_from_value(appdata)?;
    if absolute_windows(appdata) {
        Some(owned(appdata))
    } else {
        None
    }
}

/// Unix: `$XDG_STATE_HOME`, then `$XDG_DATA_HOME`, each when absolute, else
/// `$HOME/.local/state` when `HOME` is absolute.
pub open spec fn spec_state_dir_unix(
    xdg_state_home: Option<Seq<char>>,
    xdg_data_home: Option<Seq<char>>,
    home: Option<Seq<char>>,
) -> Option<Seq<char>> {
    match spec_env_path(xdg_state_home) {
        Some(s) if is_absolute_unix(s) => Some(s),
        _ => match spec_env_path(xdg_data_home) {
            Some(d) if is_absolute_unix(d) => Some(d),
            _ => match spec_env_path(home) {
                Some(h) => if is_absolute_unix(h) {
                    Some(spec_join(spec_join(h, ".local"@, '/'), "state"@, '/'))
                } else {
                    None
                },
                None => None,
            },
        },
    }
}

/// The statistics base directory on Unix.
pub fn stats_state_dir_from_env(
    xdg_state_home: Option<&str>,
    xdg_data_home: Option<&str>,
    home: Option<&str>,
) -> (r: Option<String>)
    ensures
        opt_string_view(r) == spec_state_dir_unix(
            opt_view(xdg_state_home),
            opt_view(xdg_data_home),
            opt_view(home),
        ),
{
    if let Some(state) = env_path_from_value(xdg_state_home) {
        if absolute_unix(state) {
            return Some(owned(state));
        }
    }
    if let Some(data) = env_path_from_value(xdg_data_home) {
        if absolute_unix(data) {
            return Some(owned(data));
        }
    }
    let home = env_path_from_value(home)?;
    if !absolute_unix(home) {
        return None;
    }
    let local = join(home, ".local", '/');
    Some(join(local.as_str(), "state", '/'))
}

/// Windows: `%LOCALAPPDATA%`, then `%APPDATA%`, each when absolute.
pub open spec fn spec_state_dir_windows(local_app_data: Option<Seq<char>>, appdata: Option<Seq<char>>) -> Option<Seq<char>> {
    match spec_env_path(local_app_data) {
        Some(l) if is_absolute_windows(l) => Some(l),
        _ => spec_config_dir_windows(appdata),
    }
}

/// The statistics base directory on Windows.
pub fn windows_stats_state_dir_from_env(local_app_data: Option<&str>, appdata: Option<&str>) -> (r: Option<String>)
    ensures
        opt_string_view(r) == spec_state_dir_windows(opt_view(local_app_data), opt_view(appdata)),
{
    if let Some(local) = env_path_from_value(local_app_data) {
        if absolute_windows(local) {
            return Some(owned(local));
        }
    }
    windows_config_dir_from_env(appdata)
}

/// The application's own directory inside a base directory.
pub fn app_subdir(base: &str, windows: bool) -> (r: String)
    ensures
        r@ == spec_join(base@, "focustime"@, if windows { '\\' } else { '/' }),
{
    join(base, "focustime", if windows { '\\' } else { '/' })
}

} // verus!
