//! The exchange with the Telegram Bot API: the `sendMessage` address and
//! body, and what its reply means.

use vstd::prelude::*;
use crate::config::Config;
use crate::error::{SentinelError, SentinelErrorView};
use crate::json::{
    JsonMember, JsonValue, JsonView, as_boolean, as_text, distinct_keys, index_key, json_view,
    member_lookup,
};

verus! {

/// The `sendMessage` address of the bot with `token`.
pub open spec fn send_message_url_text(token: Seq<char>) -> Seq<char> {
    "https://api.telegram.org/bot"@ + token + "/sendMessage"@
}

/// The body that posts `text` to `chat_id`, to be read as HTML.
pub open spec fn send_message_view(chat_id: Seq<char>, text: Seq<char>) -> JsonView {
    JsonView::Object(
        seq![
            ("chat_id"@, JsonView::Str(chat_id)),
            ("text"@, JsonView::Str(text)),
            ("parse_mode"@, JsonView::Str("HTML"@)),
        ],
    )
}

/// The meaning of a reply: accepted when its `ok` member is `true`;
/// otherwise refused with the text of its `description` member, or
/// `неизвестная ошибка` when that is not a string.
pub open spec fn send_outcome(reply: JsonView) -> Option<Seq<char>> {
    if as_boolean(index_key(reply, "ok"@)) == Some(true) {
        None
    } else {
        match as_text(index_key(reply, "description"@)) {
            Some(d) => Some(d),
            None => Some("неизвестная ошибка"@),
        }
    }
}

/// The address that `sendMessage` is posted to for the bot of `cfg`.
pub fn send_message_url(cfg: &Config) -> (u: String)
    ensures
        u@ == send_message_url_text(cfg.telegram_bot_token@),
{
    let mut u = String::from_str("https://api.telegram.org/bot");
    u.append(cfg.telegram_bot_token.as_str());
    u.append("/sendMessage");
    u
}

/// The JSON body that posts `text` to the chat of `cfg` in HTML mode.
pub fn send_message_body(cfg: &Config, text: &str) -> (b: JsonValue)
    ensures
        json_view(b) == send_message_view(cfg.telegram_chat_id@, text@),
{
    let mut members: Vec<JsonMember> = Vec::new();
    members.push(JsonMember::new("chat_id", JsonValue::text(cfg.telegram_chat_id.as_str())));
    members.push(JsonMember::new("text", JsonValue::text(text)));
    members.push(JsonMember::new("parse_mode", JsonValue::text("HTML")));
    let body = JsonValue::Object(members);
    proof {
        let m = match json_view(body) {
            JsonView::Object(m) => m,
            _ => Seq::empty(),
        };
        assert(m =~= seq![
            ("chat_id"@, JsonView::Str(cfg.telegram_chat_id@)),
            ("text"@, JsonView::Str(text@)),
            ("parse_mode"@, JsonView::Str("HTML"@)),
        ]);
    }
    body
}

/// Reads a `sendMessage` reply: `Ok` when Telegram accepted the message, a
/// Telegram error with its description otherwise.
pub fn check_send_reply(reply: &JsonValue) -> (r: Result<(), SentinelError>)
    ensures
        match send_outcome(json_view(*reply)) {
            None => r is Ok,
            Some(d) => r matches Err(e) && e@ == SentinelErrorView::Telegram(d),
        },
{
    let ok = match reply.get("ok") {
        Some(v) => v.as_bool(),
        None => None,
    };
    if ok == Some(true) {
        return Ok(());
    }
    let description = match reply.get("description") {
        Some(v) => v.as_str(),
        None => None,
    };
    let text = match description {
        Some(d) => String::from_str(d),
        None => String::from_str("неизвестная ошибка"),
    };
    Err(SentinelError::Telegram(text))
}

/// The `sendMessage` body has exactly three members, each key once: the
/// chat, the text, and `parse_mode` set to `HTML`, so that whichever member
/// a reader or `serde_json` keeps for a key, the message goes to the
/// configured chat, carries the alert text and is read as HTML.
pub proof fn message_body_has_each_member_once(chat_id: Seq<char>, text: Seq<char>)
    ensures
        send_message_view(chat_id, text) matches JsonView::Object(members) && {
            &&& members.len() == 3
            &&& distinct_keys(members)
            &&& member_lookup(members, "chat_id"@) == Some(JsonView::Str(chat_id))
            &&& member_lookup(members, "text"@) == Some(JsonView::Str(text))
            &&& member_lookup(members, "parse_mode"@) == Some(JsonView::Str("HTML"@))
        },
{
    reveal_strlit("chat_id");
    reveal_strlit("text");
    reveal_strlit("parse_mode");
    let members = seq![
        ("chat_id"@, JsonView::Str(chat_id)),
        ("text"@, JsonView::Str(text)),
        ("parse_mode"@, JsonView::Str("HTML"@)),
    ];
    assert("chat_id"@ != "text"@ && "chat_id"@ != "parse_mode"@ && "text"@ != "parse_mode"@) by {
        assert("chat_id"@.len() != "text"@.len());
        assert("chat_id"@.len() != "parse_mode"@.len());
        assert("text"@.len() != "parse_mode"@.len());
    }
    assert(members.drop_first() =~= seq![
        ("text"@, JsonView::Str(text)),
        ("parse_mode"@, JsonView::Str("HTML"@)),
    ]);
    let rest = members.drop_first();
    let last = rest.drop_first();
    assert(last =~= seq![("parse_mode"@, JsonView::Str("HTML"@))]);
    assert(member_lookup(members, "chat_id"@) == Some(JsonView::Str(chat_id)));
    assert(member_lookup(rest, "text"@) == Some(JsonView::Str(text)));
    assert(member_lookup(members, "text"@) == Some(JsonView::Str(text)));
    assert(member_lookup(last, "parse_mode"@) == Some(JsonView::Str("HTML"@)));
    assert(member_lookup(rest, "parse_mode"@) == Some(JsonView::Str("HTML"@)));
    assert(member_lookup(members, "parse_mode"@) == Some(JsonView::Str("HTML"@)));
    assert forall|i: int, j: int| 0 <= i < j < members.len() implies #[trigger] members[i].0
        != #[trigger] members[j].0 by {
        assert(members[0].0 == "chat_id"@);
        assert(members[1].0 == "text"@);
        assert(members[2].0 == "parse_mode"@);
    }
    assert(send_message_view(chat_id, text) == JsonView::Object(members));
}

} // verus!
