//! The addresses of the chat service.

use crate::text::{chars_of, starts_with_at};
use vstd::prelude::*;

verus! {

/// Which of the chat service's environments the library talks to.
#[derive(Debug, Clone, Copy, PartialEq, Eq, Hash, Structural)]
pub enum TgEnv {
    Test,
    Prod,
}

/// The environment that a setting names: `test` or `prod`, and no other.
pub open spec fn named_env(name: Seq<char>) -> Option<TgEnv> {
    if name == "test"@ {
        Some(TgEnv::Test)
    } else if name == "prod"@ {
        Some(TgEnv::Prod)
    } else {
        None
    }
}

/// Whether two texts are the same.
fn same_text(text: &Vec<char>, other: &str) -> (res: bool)
    ensures
        res == (text@ == other@),
{
    let other = chars_of(other);
    if text.len() != other.len() {
        return false;
    }
    let res = starts_with_at(text, 0, &other);
    assert(text@.subrange(0, other.len() as int) =~= text@);
    res
}

/// Reads the setting that names the environment.
pub fn parse_env(name: &str) -> (env: Option<TgEnv>)
    ensures
        env == named_env(name@),
{
    let name = chars_of(name);
    if same_text(&name, "test") {
        Some(TgEnv::Test)
    } else if same_text(&name, "prod") {
        Some(TgEnv::Prod)
    } else {
        None
    }
}

/// The address under which the methods of the chat service are called
/// with the key `tg_api_key`.
pub open spec fn server_url_text(tg_api_key: Seq<char>, env: TgEnv) -> Seq<char> {
    match env {
        TgEnv::Test => "https://api.telegram.org/bot"@ + tg_api_key + "/test/"@,
        TgEnv::Prod => "https://api.telegram.org/bot"@ + tg_api_key + "/"@,
    }
}

/// Writes the address under which the methods of the chat service are
/// called.
pub fn server_url(tg_api_key: &str, env: TgEnv) -> (url: String)
    ensures
        url@ == server_url_text(tg_api_key@, env),
{
    let mut url = String::from_str("https://api.telegram.org/bot");
    url.append(tg_api_key);
    match env {
        TgEnv::Test => url.append("/test/"),
        TgEnv::Prod => url.append("/"),
    }
    url
}

/// Writes the address of a method of the chat service.
pub fn method_url(server_url: &str, method: &str) -> (url: String)
    ensures
        url@ == server_url@ + method@,
{
    String::from_str(server_url).concat(method)
}

} // verus!
