//! The node's role and the config file that keeps it across restarts.

use vstd::prelude::*;
use crate::text::same_text;

verus! {

/// Role of this node: a teacher node runs the backend and advertises
/// itself; a client (student) node looks for it.
#[derive(Clone, Copy, Debug, PartialEq, Eq, Structural)]
pub enum AppMode {
    Teacher,
    Client,
}

/// The role a name stands for: "Teacher" is the teacher role, any other
/// name the client role.
pub open spec fn mode_from_name_spec(name: Seq<char>) -> AppMode {
    if name == "Teacher"@ {
        AppMode::Teacher
    } else {
        AppMode::Client
    }
}

/// The role a name stands for when a role is set: only "Teacher" and
/// "Client" name one.
pub open spec fn mode_by_name_spec(name: Seq<char>) -> Option<AppMode> {
    if name == "Teacher"@ {
        Some(AppMode::Teacher)
    } else if name == "Client"@ {
        Some(AppMode::Client)
    } else {
        None
    }
}

pub open spec fn mode_name_spec(m: AppMode) -> Seq<char> {
    match m {
        AppMode::Teacher => "Teacher"@,
        AppMode::Client => "Client"@,
    }
}

/// The role a config file gives, from its `mode` field if it has one as a
/// string; the client role otherwise.
pub open spec fn mode_from_field_spec(field: Option<Seq<char>>) -> AppMode {
    match field {
        Some(name) => mode_from_name_spec(name),
        None => AppMode::Client,
    }
}

/// Text of the config file that keeps the role `m`.
pub open spec fn config_chars(m: AppMode) -> Seq<char> {
    "{\"mode\":\""@ + mode_name_spec(m) + "\"}"@
}

/// The string held by the field `key` of the JSON object in `text`, as
/// serde_json reads it; `None` when `text` is no JSON, has no such field,
/// or the field is not a string.
pub uninterp spec fn json_str_field_of(text: Seq<char>, key: Seq<char>) -> Option<Seq<char>>;

/// Relies on `serde_json::from_str::<Value>`, `Value::get` and
/// `Value::as_str`: the result depends on the two texts alone.
#[verifier::external_body]
fn json_str_field(text: &str, key: &str) -> (r: Option<String>)
    ensures
        match r {
            Some(v) => json_str_field_of(text@, key@) == Some(v@),
            None => json_str_field_of(text@, key@) is None,
        },
{
    serde_json::from_str::<serde_json::Value>(text).ok()?.get(key)?.as_str().map(|v| v.to_string())
}

/// The role a name stands for.
pub fn mode_from_name(name: &str) -> (r: AppMode)
    ensures
        r == mode_from_name_spec(name@),
{
    if same_text(name, "Teacher") {
        AppMode::Teacher
    } else {
        AppMode::Client
    }
}

/// The role a name stands for when a role is set, or `None` for a name
/// that is neither "Teacher" nor "Client".
pub fn parse_mode_name(name: &str) -> (r: Option<AppMode>)
    ensures
        r == mode_by_name_spec(name@),
{
    if same_text(name, "Teacher") {
        Some(AppMode::Teacher)
    } else if same_text(name, "Client") {
        Some(AppMode::Client)
    } else {
        None
    }
}

/// The name of a role.
pub fn mode_name(m: AppMode) -> (r: &'static str)
    ensures
        r@ == mode_name_spec(m),
{
    match m {
        AppMode::Teacher => "Teacher",
        AppMode::Client => "Client",
    }
}

/// The role given by the `mode` field of a config file, if it has one.
pub fn mode_from_field(field: Option<&str>) -> (r: AppMode)
    ensures
        r == mode_from_field_spec(
            match field {
                Some(f) => Some(f@),
                None => None,
            },
        ),
{
    match field {
        Some(name) => mode_from_name(name),
        None => AppMode::Client,
    }
}

/// The role a config file's text gives; the client role when the text is
/// no JSON object with a string field `mode`.
pub fn mode_from_config(content: &str) -> (r: AppMode)
    ensures
        r == mode_from_field_spec(json_str_field_of(content@, "mode"@)),
{
    match json_str_field(content, "mode") {
        Some(name) => mode_from_name(name.as_str()),
        None => AppMode::Client,
    }
}

/// The role to start with: from the config file's text when it could be
/// read, else the client role.
pub fn load_app_mode(content: Option<String>) -> (r: AppMode)
    ensures
        r == match content {
            Some(c) => mode_from_field_spec(json_str_field_of(c@, "mode"@)),
            None => AppMode::Client,
        },
{
    match content {
        Some(c) => mode_from_config(c.as_str()),
        None => AppMode::Client,
    }
}

/// Text of the config file that keeps the role `m`.
pub fn config_text(m: AppMode) -> (r: String)
    ensures
        r@ == config_chars(m),
{
    let mut s = String::from_str("{\"mode\":\"");
    s.append(mode_name(m));
    s.append("\"}");
    s
}

/// Writing a role's name and reading it back gives the role again, and the
/// name is one that setting a role accepts.
pub proof fn lemma_mode_round_trip(m: AppMode)
    ensures
        mode_from_field_spec(Some(mode_name_spec(m))) == m,
        mode_by_name_spec(mode_name_spec(m)) == Some(m),
{
    reveal_strlit("Teacher");
    reveal_strlit("Client");
    assert("Client"@.len() != "Teacher"@.len());
    assert("Client"@ != "Teacher"@);
}

} // verus!
