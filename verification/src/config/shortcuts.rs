//! Keyboard shortcut settings and the rules that canonicalize their tokens.
use crate::text::{
    trim_end, trim_start,
    char_string, char_to_lower, eq_ignore_case, is_space, lemma_trim_idempotent, lower,
    lower_char, owned, str_eq,
    to_lower, trim, trim_str,
};
use vstd::prelude::*;

verus! {

/// Shortcut keys of the terminal interface, one token per action.
///
/// Command shortcuts hold one character (or `space`); navigation shortcuts
/// may also name a special key (`enter`, `esc`, arrows, `backspace`, `delete`).
#[derive(Debug, Clone, PartialEq, Eq)]
pub struct ShortcutConfig {
    pub quit: String,
    pub timer_toggle_pause: String,
    pub timer_stop_reset: String,
    pub timer_next_phase: String,
    pub open_site_manager: String,
    pub open_profile_manager: String,
    pub open_session_planner: String,
    pub open_stats_history: String,
    pub open_setup_diagnostics: String,
    pub timer_edit_note: String,
    pub break_glass_override: String,
    pub delay_schedule_start: String,
    pub back_site_manager: String,
    pub toggle_site_list_mode: String,
    pub site_add: String,
    pub site_edit: String,
    pub site_delete: String,
    pub select_previous_blocklist_profile: String,
    pub select_next_blocklist_profile: String,
    pub create_blocklist_profile: String,
    pub rename_blocklist_profile: String,
    pub delete_blocklist_profile: String,
    pub back_session_planner: String,
    pub planner_add: String,
    pub planner_rename: String,
    pub planner_favorite: String,
    pub planner_archive: String,
    pub planner_delete: String,
    pub planner_select_recent: String,
    pub back_profile_manager: String,
    pub profile_edit: String,
    pub back_stats_history: String,
    pub export_stats_history: String,
    pub history_dashboard_select_previous: String,
    pub history_dashboard_select_next: String,
    pub history_dashboard_toggle_pin: String,
    pub history_dashboard_move_left: String,
    pub history_dashboard_move_right: String,
    pub back_setup_diagnostics: String,
    pub refresh_setup_diagnostics: String,
    pub navigate_up: String,
    pub navigate_down: String,
    pub navigate_left: String,
    pub navigate_right: String,
    pub confirm: String,
    pub cancel: String,
    pub delete: String,
    pub backspace: String,
}

/// Number of command shortcuts; the fields after them are navigation keys.
pub open spec fn command_shortcut_count() -> int {
    40
}

impl View for ShortcutConfig {
    type V = Seq<Seq<char>>;

    /// The tokens in field order.
    open spec fn view(&self) -> Seq<Seq<char>> {
        seq![
            self.quit@,
            self.timer_toggle_pause@,
            self.timer_stop_reset@,
            self.timer_next_phase@,
            self.open_site_manager@,
            self.open_profile_manager@,
            self.open_session_planner@,
            self.open_stats_history@,
            self.open_setup_diagnostics@,
            self.timer_edit_note@,
            self.break_glass_override@,
            self.delay_schedule_start@,
            self.back_site_manager@,
            self.toggle_site_list_mode@,
            self.site_add@,
            self.site_edit@,
            self.site_delete@,
            self.select_previous_blocklist_profile@,
            self.select_next_blocklist_profile@,
            self.create_blocklist_profile@,
            self.rename_blocklist_profile@,
            self.delete_blocklist_profile@,
            self.back_session_planner@,
            self.planner_add@,
            self.planner_rename@,
            self.planner_favorite@,
            self.planner_archive@,
            self.planner_delete@,
            self.planner_select_recent@,
            self.back_profile_manager@,
            self.profile_edit@,
            self.back_stats_history@,
            self.export_stats_history@,
            self.history_dashboard_select_previous@,
            self.history_dashboard_select_next@,
            self.history_dashboard_toggle_pin@,
            self.history_dashboard_move_left@,
            self.history_dashboard_move_right@,
            self.back_setup_diagnostics@,
            self.refresh_setup_diagnostics@,
            self.navigate_up@,
            self.navigate_down@,
            self.navigate_left@,
            self.navigate_right@,
            self.confirm@,
            self.cancel@,
            self.delete@,
            self.backspace@,
        ]
    }
}

/// The default token of each shortcut, in field order.
pub open spec fn shortcut_defaults() -> Seq<Seq<char>> {
    seq![
        "q"@,
        "space"@,
        "s"@,
        "n"@,
        "b"@,
        "p"@,
        "t"@,
        "h"@,
        "d"@,
        "m"@,
        "u"@,
        "z"@,
        "b"@,
        "m"@,
        "a"@,
        "e"@,
        "d"@,
        "["@,
        "]"@,
        "n"@,
        "r"@,
        "x"@,
        "t"@,
        "a"@,
        "e"@,
        "f"@,
        "x"@,
        "d"@,
        "r"@,
        "p"@,
        "e"@,
        "h"@,
        "e"@,
        "k"@,
        "j"@,
        "p"@,
        "<"@,
        ">"@,
        "d"@,
        "r"@,
        "up"@,
        "down"@,
        "left"@,
        "right"@,
        "enter"@,
        "esc"@,
        "delete"@,
        "backspace"@,
    ]
}

/// The character a shortcut token stands for: `space` (any case) is the
/// space character, and any other token must be exactly one character once
/// trimmed, lower-cased when it is an ASCII letter.
pub open spec fn spec_shortcut_char(value: Seq<char>) -> Option<char> {
    let token = trim(value);
    if lower(token) == "space"@ {
        Some(' ')
    } else if token.len() == 1 {
        Some(lower_char(token[0]))
    } else {
        None
    }
}

/// The canonical spelling of a parsed shortcut character.
pub open spec fn spec_char_token(c: char) -> Seq<char> {
    if c == ' ' {
        "space"@
    } else {
        seq![lower_char(c)]
    }
}

/// A command shortcut in canonical form, or `default` when it does not parse.
pub open spec fn spec_normalize_shortcut(value: Seq<char>, default: Seq<char>) -> Seq<char> {
    match spec_shortcut_char(value) {
        Some(c) => spec_char_token(c),
        None => default,
    }
}

/// A key that a navigation shortcut may name.
#[derive(Debug, Clone, Copy, PartialEq, Eq, Structural)]
pub enum ShortcutKeyToken {
    Char(char),
    Enter,
    Esc,
    Up,
    Down,
    Left,
    Right,
    Backspace,
    Delete,
}

/// The key a navigation token names: a special key by name (any case, with
/// `escape` and `del` as aliases), else a shortcut character.
pub open spec fn spec_key_token(value: Seq<char>) -> Option<ShortcutKeyToken> {
    let token = trim(value);
    let key = lower(token);
    if token.len() == 0 {
        None
    } else if key == "enter"@ {
        Some(ShortcutKeyToken::Enter)
    } else if key == "esc"@ || key == "escape"@ {
        Some(ShortcutKeyToken::Esc)
    } else if key == "up"@ {
        Some(ShortcutKeyToken::Up)
    } else if key == "down"@ {
        Some(ShortcutKeyToken::Down)
    } else if key == "left"@ {
        Some(ShortcutKeyToken::Left)
    } else if key == "right"@ {
        Some(ShortcutKeyToken::Right)
    } else if key == "backspace"@ {
        Some(ShortcutKeyToken::Backspace)
    } else if key == "delete"@ || key == "del"@ {
        Some(ShortcutKeyToken::Delete)
    } else {
        match spec_shortcut_char(token) {
            Some(c) => Some(ShortcutKeyToken::Char(c)),
            None => None,
        }
    }
}

/// The canonical spelling of a key.
pub open spec fn spec_key_name(key: ShortcutKeyToken) -> Seq<char> {
    match key {
        ShortcutKeyToken::Char(c) => spec_char_token(c),
        ShortcutKeyToken::Enter => "enter"@,
        ShortcutKeyToken::Esc => "esc"@,
        ShortcutKeyToken::Up => "up"@,
        ShortcutKeyToken::Down => "down"@,
        ShortcutKeyToken::Left => "left"@,
        ShortcutKeyToken::Right => "right"@,
        ShortcutKeyToken::Backspace => "backspace"@,
        ShortcutKeyToken::Delete => "delete"@,
    }
}

/// A navigation shortcut in canonical form, or `default` when it names no key.
pub open spec fn spec_normalize_navigation(value: Seq<char>, default: Seq<char>) -> Seq<char> {
    match spec_key_token(value) {
        Some(key) => spec_key_name(key),
        None => default,
    }
}

/// Every shortcut in canonical form, each invalid one replaced by its default.
pub open spec fn spec_normalize_shortcuts(v: Seq<Seq<char>>) -> Seq<Seq<char>> {
    Seq::new(
        v.len(),
        |i: int|
            if i < command_shortcut_count() {
                spec_normalize_shortcut(v[i], shortcut_defaults()[i])
            } else {
                spec_normalize_navigation(v[i], shortcut_defaults()[i])
            },
    )
}

/// A character that [`spec_shortcut_char`] can produce.
pub open spec fn is_canonical_char(c: char) -> bool {
    c == ' ' || (!is_space(c) && lower_char(c) == c)
}

/// A key that [`spec_key_token`] can produce.
pub open spec fn is_canonical_key(k: ShortcutKeyToken) -> bool {
    match k {
        ShortcutKeyToken::Char(c) => is_canonical_char(c),
        _ => true,
    }
}

proof fn lemma_shortcut_char_canonical(value: Seq<char>)
    ensures
        spec_shortcut_char(value) matches Some(c) ==> is_canonical_char(c),
{
    let token = trim(value);
    if token.len() == 1 && lower(token) != "space"@ {
        lemma_trim_idempotent(value);
        assert(trim(token) == token);
        assert(!is_space(token[0])) by {
            if is_space(token[0]) {
                assert(token.drop_first().len() == 0);
                assert(trim_start(token) == trim_start(token.drop_first()));
            }
        }
    }
}

proof fn lemma_key_token_canonical(value: Seq<char>)
    ensures
        spec_key_token(value) matches Some(k) ==> is_canonical_key(k),
{
    lemma_shortcut_char_canonical(trim(value));
}

/// Every word without white space is its own trim.
proof fn lemma_trim_word(s: Seq<char>)
    requires
        forall|i: int| 0 <= i < s.len() ==> !is_space(#[trigger] s[i]),
    ensures
        trim(s) == s,
{
    if s.len() > 0 {
        assert(trim_start(s) == s);
        assert(trim_end(s) == s);
    }
}

proof fn lemma_char_token_round_trip(c: char)
    requires
        is_canonical_char(c),
    ensures
        spec_shortcut_char(spec_char_token(c)) == Some(c),
        spec_key_token(spec_char_token(c)) == Some(ShortcutKeyToken::Char(c)),
{
    reveal_strlit("space");
    reveal_strlit("enter");
    reveal_strlit("esc");
    reveal_strlit("escape");
    reveal_strlit("up");
    reveal_strlit("down");
    reveal_strlit("left");
    reveal_strlit("right");
    reveal_strlit("backspace");
    reveal_strlit("delete");
    reveal_strlit("del");
    let t = spec_char_token(c);
    lemma_trim_word(t);
    assert(lower("space"@) =~= "space"@);
    if c != ' ' {
        assert(lower(t) =~= t);
        assert(t.len() == 1);
    }
}

proof fn lemma_key_name_round_trip(k: ShortcutKeyToken)
    requires
        is_canonical_key(k),
    ensures
        spec_key_token(spec_key_name(k)) == Some(k),
{
    reveal_strlit("enter");
    reveal_strlit("esc");
    reveal_strlit("escape");
    reveal_strlit("del");
    reveal_strlit("up");
    reveal_strlit("down");
    reveal_strlit("left");
    reveal_strlit("right");
    reveal_strlit("backspace");
    reveal_strlit("delete");
    match k {
        ShortcutKeyToken::Char(c) => {
            lemma_char_token_round_trip(c);
            assert(spec_key_name(k) == spec_char_token(c));
        },
        _ => {
            let t = spec_key_name(k);
            lemma_trim_word(t);
            assert(lower(t) =~= t);
        },
    }
}

/// A named key, spelled in any case and with surrounding white space, or
/// by its alias (`escape` for `esc`, `del` for `delete`), names that key:
/// an alias and its canonical name read as the same key, and a navigation
/// shortcut naming a key is normalized to that key's canonical name.
pub proof fn lemma_key_names_and_aliases_name_their_key(value: Seq<char>, k: ShortcutKeyToken, default: Seq<char>)
    requires
        !(k is Char),
        lower(trim(value)) == spec_key_name(k) || (k == ShortcutKeyToken::Esc && lower(trim(value)) == "escape"@)
            || (k == ShortcutKeyToken::Delete && lower(trim(value)) == "del"@),
    ensures
        spec_key_token(value) == Some(k),
        spec_normalize_navigation(value, default) == spec_key_name(k),
        spec_key_token("escape"@) == spec_key_token("esc"@),
        spec_key_token("del"@) == spec_key_token("delete"@),
{
    reveal_strlit("enter");
    reveal_strlit("esc");
    reveal_strlit("escape");
    reveal_strlit("up");
    reveal_strlit("down");
    reveal_strlit("left");
    reveal_strlit("right");
    reveal_strlit("backspace");
    reveal_strlit("delete");
    reveal_strlit("del");
    assert("esc"@ != "del"@) by {
        assert("esc"@[0] != "del"@[0]);
    }
    assert("left"@ != "down"@) by {
        assert("left"@[0] != "down"@[0]);
    }
    assert("enter"@ != "right"@) by {
        assert("enter"@[0] != "right"@[0]);
    }
    assert("escape"@ != "delete"@) by {
        assert("escape"@[0] != "delete"@[0]);
    }
    assert(lower(trim(value)).len() == trim(value).len());
    assert(lower(trim(value)).len() > 0);
    assert(trim(value).len() > 0);
    lemma_trim_word("escape"@);
    lemma_trim_word("esc"@);
    lemma_trim_word("del"@);
    lemma_trim_word("delete"@);
    assert(lower("escape"@) =~= "escape"@);
    assert(lower("esc"@) =~= "esc"@);
    assert(lower("del"@) =~= "del"@);
    assert(lower("delete"@) =~= "delete"@);
    match k {
        ShortcutKeyToken::Enter => assert(spec_key_token(value) == Some(k)),
        ShortcutKeyToken::Esc => assert(spec_key_token(value) == Some(k)),
        ShortcutKeyToken::Up => assert(spec_key_token(value) == Some(k)),
        ShortcutKeyToken::Down => assert(spec_key_token(value) == Some(k)),
        ShortcutKeyToken::Left => assert(spec_key_token(value) == Some(k)),
        ShortcutKeyToken::Right => assert(spec_key_token(value) == Some(k)),
        ShortcutKeyToken::Backspace => assert(spec_key_token(value) == Some(k)),
        ShortcutKeyToken::Delete => assert(spec_key_token(value) == Some(k)),
        ShortcutKeyToken::Char(_) => {},
    }
}

/// Normalizing a command shortcut twice is normalizing it once, when the
/// fallback is itself canonical.
pub proof fn lemma_normalize_shortcut_idempotent(value: Seq<char>, default: Seq<char>)
    requires
        spec_normalize_shortcut(default, default) == default,
    ensures
        spec_normalize_shortcut(spec_normalize_shortcut(value, default), default)
            == spec_normalize_shortcut(value, default),
{
    lemma_shortcut_char_canonical(value);
    if let Some(c) = spec_shortcut_char(value) {
        lemma_char_token_round_trip(c);
    }
}

/// Normalizing a navigation shortcut twice is normalizing it once, when the
/// fallback is itself canonical.
pub proof fn lemma_normalize_navigation_idempotent(value: Seq<char>, default: Seq<char>)
    requires
        spec_normalize_navigation(default, default) == default,
    ensures
        spec_normalize_navigation(spec_normalize_navigation(value, default), default)
            == spec_normalize_navigation(value, default),
{
    lemma_key_token_canonical(value);
    if let Some(k) = spec_key_token(value) {
        lemma_key_name_round_trip(k);
    }
}

/// The default shortcuts are already in canonical form.
pub proof fn lemma_shortcut_defaults_canonical()
    ensures
        spec_normalize_shortcuts(shortcut_defaults()) == shortcut_defaults(),
{
    let d = shortcut_defaults();
    assert forall|i: int| 0 <= i < d.len() implies #[trigger] spec_normalize_shortcuts(d)[i] == d[i] by {
        if i < command_shortcut_count() {
            lemma_default_command_canonical(i);
        } else {
            lemma_default_navigation_canonical(i);
        }
    }
    assert(spec_normalize_shortcuts(d) =~= d);
}

proof fn lemma_default_command_canonical(i: int)
    requires
        0 <= i < command_shortcut_count(),
    ensures
        spec_normalize_shortcut(shortcut_defaults()[i], shortcut_defaults()[i])
            == shortcut_defaults()[i],
        is_command_token(shortcut_defaults()[i]),
{
    let d = shortcut_defaults()[i];
    reveal_strlit("<");
    reveal_strlit(">");
    reveal_strlit("[");
    reveal_strlit("]");
    reveal_strlit("a");
    reveal_strlit("b");
    reveal_strlit("d");
    reveal_strlit("e");
    reveal_strlit("f");
    reveal_strlit("h");
    reveal_strlit("j");
    reveal_strlit("k");
    reveal_strlit("m");
    reveal_strlit("n");
    reveal_strlit("p");
    reveal_strlit("q");
    reveal_strlit("r");
    reveal_strlit("s");
    reveal_strlit("space");
    reveal_strlit("t");
    reveal_strlit("u");
    reveal_strlit("x");
    reveal_strlit("z");
    if d != "space"@ {
        assert(d.len() == 1);
        assert(is_canonical_char(d[0]));
        assert(spec_char_token(d[0]) =~= d);
        lemma_char_token_round_trip(d[0]);
    } else {
        lemma_char_token_round_trip(' ');
    }
}

proof fn lemma_default_navigation_canonical(i: int)
    requires
        command_shortcut_count() <= i < 48,
    ensures
        spec_normalize_navigation(shortcut_defaults()[i], shortcut_defaults()[i])
            == shortcut_defaults()[i],
        is_navigation_token(shortcut_defaults()[i]),
{
    reveal_strlit("up");
    reveal_strlit("down");
    reveal_strlit("left");
    reveal_strlit("right");
    reveal_strlit("enter");
    reveal_strlit("esc");
    reveal_strlit("delete");
    reveal_strlit("backspace");
    let d = shortcut_defaults()[i];
    let k = if i == 40 {
        ShortcutKeyToken::Up
    } else if i == 41 {
        ShortcutKeyToken::Down
    } else if i == 42 {
        ShortcutKeyToken::Left
    } else if i == 43 {
        ShortcutKeyToken::Right
    } else if i == 44 {
        ShortcutKeyToken::Enter
    } else if i == 45 {
        ShortcutKeyToken::Esc
    } else if i == 46 {
        ShortcutKeyToken::Delete
    } else {
        ShortcutKeyToken::Backspace
    };
    assert(spec_key_name(k) == d);
    lemma_key_name_round_trip(k);
}

/// A canonical command shortcut: `space`, or one character that is not
/// white space and not an ASCII capital.
pub open spec fn is_command_token(t: Seq<char>) -> bool {
    t == "space"@ || (t.len() == 1 && !is_space(t[0]) && lower_char(t[0]) == t[0])
}

/// A canonical navigation shortcut: a key name, or a command shortcut.
pub open spec fn is_navigation_token(t: Seq<char>) -> bool {
    ||| is_command_token(t)
    ||| t == "enter"@
    ||| t == "esc"@
    ||| t == "up"@
    ||| t == "down"@
    ||| t == "left"@
    ||| t == "right"@
    ||| t == "backspace"@
    ||| t == "delete"@
}

proof fn lemma_char_token_shape(c: char)
    requires
        is_canonical_char(c),
    ensures
        is_command_token(spec_char_token(c)),
{
    if c != ' ' {
        assert(spec_char_token(c)[0] == lower_char(c));
    }
}

/// Every normalized command shortcut is `space` or a single character that
/// is neither white space nor an ASCII capital; every normalized navigation
/// shortcut is a key name or such a shortcut.
pub proof fn lemma_normalized_shortcuts_in_range(v: Seq<Seq<char>>)
    requires
        v.len() == shortcut_defaults().len(),
    ensures
        forall|i: int| 0 <= i < command_shortcut_count() ==> is_command_token(#[trigger] spec_normalize_shortcuts(v)[i]),
        forall|i: int|
            command_shortcut_count() <= i < v.len() ==> is_navigation_token(#[trigger] spec_normalize_shortcuts(v)[i]),
{
    let n = spec_normalize_shortcuts(v);
    assert forall|i: int| 0 <= i < command_shortcut_count() implies is_command_token(#[trigger] n[i]) by {
        lemma_default_command_canonical(i);
        lemma_shortcut_char_canonical(v[i]);
        if let Some(c) = spec_shortcut_char(v[i]) {
            lemma_char_token_shape(c);
        }
    }
    assert forall|i: int| command_shortcut_count() <= i < v.len() implies is_navigation_token(#[trigger] n[i]) by {
        lemma_default_navigation_canonical(i);
        lemma_key_token_canonical(v[i]);
        if let Some(k) = spec_key_token(v[i]) {
            if let ShortcutKeyToken::Char(c) = k {
                lemma_char_token_shape(c);
            }
        }
    }
}

/// Normalizing the shortcuts twice is normalizing them once.
pub proof fn lemma_shortcuts_normalized_idempotent(v: Seq<Seq<char>>)
    requires
        v.len() == shortcut_defaults().len(),
    ensures
        spec_normalize_shortcuts(spec_normalize_shortcuts(v)) == spec_normalize_shortcuts(v),
{
    let n = spec_normalize_shortcuts(v);
    assert forall|i: int| 0 <= i < v.len() implies #[trigger] spec_normalize_shortcuts(n)[i]
        == n[i] by {
        if i < command_shortcut_count() {
            lemma_default_command_canonical(i);
            lemma_normalize_shortcut_idempotent(v[i], shortcut_defaults()[i]);
        } else {
            lemma_default_navigation_canonical(i);
            lemma_normalize_navigation_idempotent(v[i], shortcut_defaults()[i]);
        }
    }
    assert(spec_normalize_shortcuts(n) =~= n);
}

/// Reads a shortcut character.
fn parse_shortcut_char(value: &str) -> (r: Option<char>)
    ensures
        r == spec_shortcut_char(value@),
{
    let token = trim_str(value);
    if eq_ignore_case(token, "space") {
        proof {
            reveal_strlit("space");
            assert(lower("space"@) =~= "space"@);
        }
        return Some(' ');
    }
    proof {
        reveal_strlit("space");
        if lower(token@) == "space"@ {
            assert(lower("space"@) =~= "space"@);
        }
    }
    if token.unicode_len() != 1 {
        return None;
    }
    Some(char_to_lower(token.get_char(0)))
}

/// The canonical spelling of a parsed shortcut character.
fn char_token(c: char) -> (r: String)
    ensures
        r@ == spec_char_token(c),
{
    if c == ' ' {
        owned("space")
    } else {
        char_string(char_to_lower(c))
    }
}

/// Reads a navigation key token.
fn parse_shortcut_key_token(value: &str) -> (r: Option<ShortcutKeyToken>)
    ensures
        r == spec_key_token(value@),
{
    let token = trim_str(value);
    if token.unicode_len() == 0 {
        return None;
    }
    let key = to_lower(token);
    let k = key.as_str();
    if str_eq(k, "enter") {
        Some(ShortcutKeyToken::Enter)
    } else if str_eq(k, "esc") || str_eq(k, "escape") {
        Some(ShortcutKeyToken::Esc)
    } else if str_eq(k, "up") {
        Some(ShortcutKeyToken::Up)
    } else if str_eq(k, "down") {
        Some(ShortcutKeyToken::Down)
    } else if str_eq(k, "left") {
        Some(ShortcutKeyToken::Left)
    } else if str_eq(k, "right") {
        Some(ShortcutKeyToken::Right)
    } else if str_eq(k, "backspace") {
        Some(ShortcutKeyToken::Backspace)
    } else if str_eq(k, "delete") || str_eq(k, "del") {
        Some(ShortcutKeyToken::Delete)
    } else {
        proof {
            lemma_trim_idempotent(token@);
        }
        match parse_shortcut_char(token) {
            Some(c) => Some(ShortcutKeyToken::Char(c)),
            None => None,
        }
    }
}

/// A command shortcut token in canonical form, or `default`.
fn normalize_shortcut_token(value: &str, default: &str) -> (r: String)
    ensures
        r@ == spec_normalize_shortcut(value@, default@),
{
    match parse_shortcut_char(value) {
        Some(c) => char_token(c),
        None => owned(default),
    }
}

/// A navigation shortcut token in canonical form, or `default`.
fn normalize_navigation_shortcut_token(value: &str, default: &str) -> (r: String)
    ensures
        r@ == spec_normalize_navigation(value@, default@),
{
    match parse_shortcut_key_token(value) {
        None => owned(default),
        Some(ShortcutKeyToken::Char(c)) => char_token(c),
        Some(ShortcutKeyToken::Enter) => owned("enter"),
        Some(ShortcutKeyToken::Esc) => owned("esc"),
        Some(ShortcutKeyToken::Up) => owned("up"),
        Some(ShortcutKeyToken::Down) => owned("down"),
        Some(ShortcutKeyToken::Left) => owned("left"),
        Some(ShortcutKeyToken::Right) => owned("right"),
        Some(ShortcutKeyToken::Backspace) => owned("backspace"),
        Some(ShortcutKeyToken::Delete) => owned("delete"),
    }
}

fn default_shortcut_quit() -> (r: String)
    ensures
        r@ == "q"@,
{
    owned("q")
}

fn default_shortcut_timer_toggle_pause() -> (r: String)
    ensures
        r@ == "space"@,
{
    owned("space")
}

fn default_shortcut_timer_stop_reset() -> (r: String)
    ensures
        r@ == "s"@,
{
    owned("s")
}

fn default_shortcut_timer_next_phase() -> (r: String)
    ensures
        r@ == "n"@,
{
    owned("n")
}

fn default_shortcut_open_site_manager() -> (r: String)
    ensures
        r@ == "b"@,
{
    owned("b")
}

fn default_shortcut_open_profile_manager() -> (r: String)
    ensures
        r@ == "p"@,
{
    owned("p")
}

fn default_shortcut_open_session_planner() -> (r: String)
    ensures
        r@ == "t"@,
{
    owned("t")
}

fn default_shortcut_open_stats_history() -> (r: String)
    ensures
        r@ == "h"@,
{
    owned("h")
}

fn default_shortcut_open_setup_diagnostics() -> (r: String)
    ensures
        r@ == "d"@,
{
    owned("d")
}

fn default_shortcut_timer_edit_note() -> (r: String)
    ensures
        r@ == "m"@,
{
    owned("m")
}

fn default_shortcut_break_glass_override() -> (r: String)
    ensures
        r@ == "u"@,
{
    owned("u")
}

fn default_shortcut_delay_schedule_start() -> (r: String)
    ensures
        r@ == "z"@,
{
    owned("z")
}

fn default_shortcut_back_site_manager() -> (r: String)
    ensures
        r@ == "b"@,
{
    owned("b")
}

fn default_shortcut_toggle_site_list_mode() -> (r: String)
    ensures
        r@ == "m"@,
{
    owned("m")
}

fn default_shortcut_site_add() -> (r: String)
    ensures
        r@ == "a"@,
{
    owned("a")
}

fn default_shortcut_site_edit() -> (r: String)
    ensures
        r@ == "e"@,
{
    owned("e")
}

fn default_shortcut_site_delete() -> (r: String)
    ensures
        r@ == "d"@,
{
    owned("d")
}

fn default_shortcut_select_previous_blocklist_profile() -> (r: String)
    ensures
        r@ == "["@,
{
    owned("[")
}

fn default_shortcut_select_next_blocklist_profile() -> (r: String)
    ensures
        r@ == "]"@,
{
    owned("]")
}

fn default_shortcut_create_blocklist_profile() -> (r: String)
    ensures
        r@ == "n"@,
{
    owned("n")
}

fn default_shortcut_rename_blocklist_profile() -> (r: String)
    ensures
        r@ == "r"@,
{
    owned("r")
}

fn default_shortcut_delete_blocklist_profile() -> (r: String)
    ensures
        r@ == "x"@,
{
    owned("x")
}

fn default_shortcut_back_session_planner() -> (r: String)
    ensures
        r@ == "t"@,
{
    owned("t")
}

fn default_shortcut_planner_add() -> (r: String)
    ensures
        r@ == "a"@,
{
    owned("a")
}

fn default_shortcut_planner_rename() -> (r: String)
    ensures
        r@ == "e"@,
{
    owned("e")
}

fn default_shortcut_planner_favorite() -> (r: String)
    ensures
        r@ == "f"@,
{
    owned("f")
}

fn default_shortcut_planner_archive() -> (r: String)
    ensures
        r@ == "x"@,
{
    owned("x")
}

fn default_shortcut_planner_delete() -> (r: String)
    ensures
        r@ == "d"@,
{
    owned("d")
}

fn default_shortcut_planner_select_recent() -> (r: String)
    ensures
        r@ == "r"@,
{
    owned("r")
}

fn default_shortcut_back_profile_manager() -> (r: String)
    ensures
        r@ == "p"@,
{
    owned("p")
}

fn default_shortcut_profile_edit() -> (r: String)
    ensures
        r@ == "e"@,
{
    owned("e")
}

fn default_shortcut_back_stats_history() -> (r: String)
    ensures
        r@ == "h"@,
{
    owned("h")
}

fn default_shortcut_export_stats_history() -> (r: String)
    ensures
        r@ == "e"@,
{
    owned("e")
}

fn default_shortcut_history_dashboard_select_previous() -> (r: String)
    ensures
        r@ == "k"@,
{
    owned("k")
}

fn default_shortcut_history_dashboard_select_next() -> (r: String)
    ensures
        r@ == "j"@,
{
    owned("j")
}

fn default_shortcut_history_dashboard_toggle_pin() -> (r: String)
    ensures
        r@ == "p"@,
{
    owned("p")
}

fn default_shortcut_history_dashboard_move_left() -> (r: String)
    ensures
        r@ == "<"@,
{
    owned("<")
}

fn default_shortcut_history_dashboard_move_right() -> (r: String)
    ensures
        r@ == ">"@,
{
    owned(">")
}

fn default_shortcut_back_setup_diagnostics() -> (r: String)
    ensures
        r@ == "d"@,
{
    owned("d")
}

fn default_shortcut_refresh_setup_diagnostics() -> (r: String)
    ensures
        r@ == "r"@,
{
    owned("r")
}

fn default_shortcut_navigate_up() -> (r: String)
    ensures
        r@ == "up"@,
{
    owned("up")
}

fn default_shortcut_navigate_down() -> (r: String)
    ensures
        r@ == "down"@,
{
    owned("down")
}

fn default_shortcut_navigate_left() -> (r: String)
    ensures
        r@ == "left"@,
{
    owned("left")
}

fn default_shortcut_navigate_right() -> (r: String)
    ensures
        r@ == "right"@,
{
    owned("right")
}

fn default_shortcut_confirm() -> (r: String)
    ensures
        r@ == "enter"@,
{
    owned("enter")
}

fn default_shortcut_cancel() -> (r: String)
    ensures
        r@ == "esc"@,
{
    owned("esc")
}

fn default_shortcut_delete() -> (r: String)
    ensures
        r@ == "delete"@,
{
    owned("delete")
}

fn default_shortcut_backspace() -> (r: String)
    ensures
        r@ == "backspace"@,
{
    owned("backspace")
}

impl ShortcutConfig {
    /// Each shortcut in canonical form; one that does not parse falls back to its default.
    pub fn normalized(&self) -> (r: ShortcutConfig)
        ensures
            r@ == spec_normalize_shortcuts(self@),
    {
        let r = ShortcutConfig {
            quit: normalize_shortcut_token(self.quit.as_str(), default_shortcut_quit().as_str()),
            timer_toggle_pause: normalize_shortcut_token(self.timer_toggle_pause.as_str(), default_shortcut_timer_toggle_pause().as_str()),
            timer_stop_reset: normalize_shortcut_token(self.timer_stop_reset.as_str(), default_shortcut_timer_stop_reset().as_str()),
            timer_next_phase: normalize_shortcut_token(self.timer_next_phase.as_str(), default_shortcut_timer_next_phase().as_str()),
            open_site_manager: normalize_shortcut_token(self.open_site_manager.as_str(), default_shortcut_open_site_manager().as_str()),
            open_profile_manager: normalize_shortcut_token(self.open_profile_manager.as_str(), default_shortcut_open_profile_manager().as_str()),
            open_session_planner: normalize_shortcut_token(self.open_session_planner.as_str(), default_shortcut_open_session_planner().as_str()),
            open_stats_history: normalize_shortcut_token(self.open_stats_history.as_str(), default_shortcut_open_stats_history().as_str()),
            open_setup_diagnostics: normalize_shortcut_token(self.open_setup_diagnostics.as_str(), default_shortcut_open_setup_diagnostics().as_str()),
            timer_edit_note: normalize_shortcut_token(self.timer_edit_note.as_str(), default_shortcut_timer_edit_note().as_str()),
            break_glass_override: normalize_shortcut_token(self.break_glass_override.as_str(), default_shortcut_break_glass_override().as_str()),
            delay_schedule_start: normalize_shortcut_token(self.delay_schedule_start.as_str(), default_shortcut_delay_schedule_start().as_str()),
            back_site_manager: normalize_shortcut_token(self.back_site_manager.as_str(), default_shortcut_back_site_manager().as_str()),
            toggle_site_list_mode: normalize_shortcut_token(self.toggle_site_list_mode.as_str(), default_shortcut_toggle_site_list_mode().as_str()),
            site_add: normalize_shortcut_token(self.site_add.as_str(), default_shortcut_site_add().as_str()),
            site_edit: normalize_shortcut_token(self.site_edit.as_str(), default_shortcut_site_edit().as_str()),
            site_delete: normalize_shortcut_token(self.site_delete.as_str(), default_shortcut_site_delete().as_str()),
            select_previous_blocklist_profile: normalize_shortcut_token(self.select_previous_blocklist_profile.as_str(), default_shortcut_select_previous_blocklist_profile().as_str()),
            select_next_blocklist_profile: normalize_shortcut_token(self.select_next_blocklist_profile.as_str(), default_shortcut_select_next_blocklist_profile().as_str()),
            create_blocklist_profile: normalize_shortcut_token(self.create_blocklist_profile.as_str(), default_shortcut_create_blocklist_profile().as_str()),
            rename_blocklist_profile: normalize_shortcut_token(self.rename_blocklist_profile.as_str(), default_shortcut_rename_blocklist_profile().as_str()),
            delete_blocklist_profile: normalize_shortcut_token(self.delete_blocklist_profile.as_str(), default_shortcut_delete_blocklist_profile().as_str()),
            back_session_planner: normalize_shortcut_token(self.back_session_planner.as_str(), default_shortcut_back_session_planner().as_str()),
            planner_add: normalize_shortcut_token(self.planner_add.as_str(), default_shortcut_planner_add().as_str()),
            planner_rename: normalize_shortcut_token(self.planner_rename.as_str(), default_shortcut_planner_rename().as_str()),
            planner_favorite: normalize_shortcut_token(self.planner_favorite.as_str(), default_shortcut_planner_favorite().as_str()),
            planner_archive: normalize_shortcut_token(self.planner_archive.as_str(), default_shortcut_planner_archive().as_str()),
            planner_delete: normalize_shortcut_token(self.planner_delete.as_str(), default_shortcut_planner_delete().as_str()),
            planner_select_recent: normalize_shortcut_token(self.planner_select_recent.as_str(), default_shortcut_planner_select_recent().as_str()),
            back_profile_manager: normalize_shortcut_token(self.back_profile_manager.as_str(), default_shortcut_back_profile_manager().as_str()),
            profile_edit: normalize_shortcut_token(self.profile_edit.as_str(), default_shortcut_profile_edit().as_str()),
            back_stats_history: normalize_shortcut_token(self.back_stats_history.as_str(), default_shortcut_back_stats_history().as_str()),
            export_stats_history: normalize_shortcut_token(self.export_stats_history.as_str(), default_shortcut_export_stats_history().as_str()),
            history_dashboard_select_previous: normalize_shortcut_token(self.history_dashboard_select_previous.as_str(), default_shortcut_history_dashboard_select_previous().as_str()),
            history_dashboard_select_next: normalize_shortcut_token(self.history_dashboard_select_next.as_str(), default_shortcut_history_dashboard_select_next().as_str()),
            history_dashboard_toggle_pin: normalize_shortcut_token(self.history_dashboard_toggle_pin.as_str(), default_shortcut_history_dashboard_toggle_pin().as_str()),
            history_dashboard_move_left: normalize_shortcut_token(self.history_dashboard_move_left.as_str(), default_shortcut_history_dashboard_move_left().as_str()),
            history_dashboard_move_right: normalize_shortcut_token(self.history_dashboard_move_right.as_str(), default_shortcut_history_dashboard_move_right().as_str()),
            back_setup_diagnostics: normalize_shortcut_token(self.back_setup_diagnostics.as_str(), default_shortcut_back_setup_diagnostics().as_str()),
            refresh_setup_diagnostics: normalize_shortcut_token(self.refresh_setup_diagnostics.as_str(), default_shortcut_refresh_setup_diagnostics().as_str()),
            navigate_up: normalize_navigation_shortcut_token(self.navigate_up.as_str(), default_shortcut_navigate_up().as_str()),
            navigate_down: normalize_navigation_shortcut_token(self.navigate_down.as_str(), default_shortcut_navigate_down().as_str()),
            navigate_left: normalize_navigation_shortcut_token(self.navigate_left.as_str(), default_shortcut_navigate_left().as_str()),
            navigate_right: normalize_navigation_shortcut_token(self.navigate_right.as_str(), default_shortcut_navigate_right().as_str()),
            confirm: normalize_navigation_shortcut_token(self.confirm.as_str(), default_shortcut_confirm().as_str()),
            cancel: normalize_navigation_shortcut_token(self.cancel.as_str(), default_shortcut_cancel().as_str()),
            delete: normalize_navigation_shortcut_token(self.delete.as_str(), default_shortcut_delete().as_str()),
            backspace: normalize_navigation_shortcut_token(self.backspace.as_str(), default_shortcut_backspace().as_str()),
        };
        assert(r@ =~= spec_normalize_shortcuts(self@));
        r
    }
}

impl Default for ShortcutConfig {
    /// The default shortcut keys.
    fn default() -> (r: ShortcutConfig)
        ensures
            r@ == shortcut_defaults(),
    {
        let r = ShortcutConfig {
            quit: default_shortcut_quit(),
            timer_toggle_pause: default_shortcut_timer_toggle_pause(),
            timer_stop_reset: default_shortcut_timer_stop_reset(),
            timer_next_phase: default_shortcut_timer_next_phase(),
            open_site_manager: default_shortcut_open_site_manager(),
            open_profile_manager: default_shortcut_open_profile_manager(),
            open_session_planner: default_shortcut_open_session_planner(),
            open_stats_history: default_shortcut_open_stats_history(),
            open_setup_diagnostics: default_shortcut_open_setup_diagnostics(),
            timer_edit_note: default_shortcut_timer_edit_note(),
            break_glass_override: default_shortcut_break_glass_override(),
            delay_schedule_start: default_shortcut_delay_schedule_start(),
            back_site_manager: default_shortcut_back_site_manager(),
            toggle_site_list_mode: default_shortcut_toggle_site_list_mode(),
            site_add: default_shortcut_site_add(),
            site_edit: default_shortcut_site_edit(),
            site_delete: default_shortcut_site_delete(),
            select_previous_blocklist_profile: default_shortcut_select_previous_blocklist_profile(),
            select_next_blocklist_profile: default_shortcut_select_next_blocklist_profile(),
            create_blocklist_profile: default_shortcut_create_blocklist_profile(),
            rename_blocklist_profile: default_shortcut_rename_blocklist_profile(),
            delete_blocklist_profile: default_shortcut_delete_blocklist_profile(),
            back_session_planner: default_shortcut_back_session_planner(),
            planner_add: default_shortcut_planner_add(),
            planner_rename: default_shortcut_planner_rename(),
            planner_favorite: default_shortcut_planner_favorite(),
            planner_archive: default_shortcut_planner_archive(),
            planner_delete: default_shortcut_planner_delete(),
            planner_select_recent: default_shortcut_planner_select_recent(),
            back_profile_manager: default_shortcut_back_profile_manager(),
            profile_edit: default_shortcut_profile_edit(),
            back_stats_history: default_shortcut_back_stats_history(),
            export_stats_history: default_shortcut_export_stats_history(),
            history_dashboard_select_previous: default_shortcut_history_dashboard_select_previous(),
            history_dashboard_select_next: default_shortcut_history_dashboard_select_next(),
            history_dashboard_toggle_pin: default_shortcut_history_dashboard_toggle_pin(),
            history_dashboard_move_left: default_shortcut_history_dashboard_move_left(),
            history_dashboard_move_right: default_shortcut_history_dashboard_move_right(),
            back_setup_diagnostics: default_shortcut_back_setup_diagnostics(),
            refresh_setup_diagnostics: default_shortcut_refresh_setup_diagnostics(),
            navigate_up: default_shortcut_navigate_up(),
            navigate_down: default_shortcut_navigate_down(),
            navigate_left: default_shortcut_navigate_left(),
            navigate_right: default_shortcut_navigate_right(),
            confirm: default_shortcut_confirm(),
            cancel: default_shortcut_cancel(),
            delete: default_shortcut_delete(),
            backspace: default_shortcut_backspace(),
        };
        assert(r@ =~= shortcut_defaults());
        r
    }
}

} // verus!
