//! The exchange with the Mistral chat-completions service: the prompt, the
//! request body and header, and the alert text read from the reply.

use vstd::prelude::*;
use crate::analysis::Analysis;
use crate::config::{Config, ConfigView};
use crate::error::{SentinelError, SentinelErrorView};
use crate::json::{
    JsonMember, JsonValue, JsonView, as_text, distinct_keys, index_key, index_pos, json_text,
    json_view, member_lookup,
    render_json,
};
use crate::text::{decimal, push_decimal, push_signed_decimal, signed_decimal, trim, trimmed};

verus! {

/// The prompt line for a slot lag.
pub open spec fn lag_prompt_issue(slot_delta: int, threshold: nat) -> Seq<char> {
    "отставание слотов: "@ + signed_decimal(slot_delta) + " (порог: "@ + decimal(threshold)
        + ")"@
}

/// The prompt line for a high response time.
pub open spec fn rtt_prompt_issue(rtt_ms: nat, threshold_ms: nat) -> Seq<char> {
    "высокий RTT: "@ + decimal(rtt_ms) + "ms (порог: "@ + decimal(threshold_ms) + "ms)"@
}

/// The problems the prompt lists, joined by `; `.
pub open spec fn prompt_issues(a: Analysis, c: ConfigView) -> Seq<char> {
    let lag = lag_prompt_issue(a.slot_delta as int, c.slot_lag_threshold as nat);
    let rtt = rtt_prompt_issue(a.target_rtt_ms as nat, c.rtt_threshold_ms as nat);
    if a.is_slot_lagging && a.is_rtt_high {
        lag + "; "@ + rtt
    } else if a.is_slot_lagging {
        lag
    } else if a.is_rtt_high {
        rtt
    } else {
        Seq::empty()
    }
}

/// The prompt that asks the model for an alert about the node at
/// `target_url`.
pub open spec fn prompt_text(target_url: Seq<char>, a: Analysis, c: ConfigView) -> Seq<char> {
    "Ты — система мониторинга Solana-ноды. Зафиксирован инцидент.\nНода: "@ + target_url
        + "\nПроблемы: "@ + prompt_issues(a, c)
        + "\n\nНапиши краткий технический алерт на русском языке.\nТребования: максимум 200 символов, только текст, без markdown, без emoji."@
}

/// The body of a chat-completion request for `prompt` to `model`.
pub open spec fn chat_request_view(model: Seq<char>, prompt: Seq<char>) -> JsonView {
    JsonView::Object(
        seq![
            ("model"@, JsonView::Str(model)),
            ("max_tokens"@, JsonView::Number("256"@)),
            (
                "messages"@,
                JsonView::Array(
                    seq![
                        JsonView::Object(
                            seq![("role"@, JsonView::Str("user"@)), ("content"@, JsonView::Str(prompt))],
                        ),
                    ],
                ),
            ),
        ],
    )
}

/// The text at `choices[0].message.content` of a reply, if it is a string.
pub open spec fn reply_content(reply: JsonView) -> Option<Seq<char>> {
    as_text(
        index_key(index_key(index_pos(index_key(reply, "choices"@), 0), "message"@), "content"@),
    )
}

/// The most characters an alert may have.
pub open spec fn max_alert_chars() -> nat {
    200
}

/// `s` cut to its first `n` characters when it is longer.
pub open spec fn at_most(s: Seq<char>, n: nat) -> Seq<char> {
    if s.len() <= n {
        s
    } else {
        s.take(n as int)
    }
}

/// The alert written from the model's content: trimmed, then cut to 200
/// characters.
pub open spec fn alert_from_content(content: Seq<char>) -> Seq<char> {
    at_most(trim(content), max_alert_chars())
}

/// The error message for a reply without the content field; it ends with
/// the reply as `serde_json` prints it.
pub open spec fn missing_content_message(reply: JsonView) -> Seq<char> {
    "поле choices[0].message.content отсутствует в ответе: "@ + json_text(reply)
}

/// Builds the prompt that asks the model for a short technical alert about
/// the node at `target_url`, listing the violated conditions with their
/// thresholds.
pub fn build_prompt(target_url: &str, analysis: &Analysis, cfg: &Config) -> (p: String)
    ensures
        p@ == prompt_text(target_url@, *analysis, cfg@),
{
    let mut p = String::from_str("Ты — система мониторинга Solana-ноды. Зафиксирован инцидент.\nНода: ");
    p.append(target_url);
    p.append("\nПроблемы: ");
    let ghost before = p@;
    if analysis.is_slot_lagging {
        p.append("отставание слотов: ");
        push_signed_decimal(&mut p, analysis.slot_delta);
        p.append(" (порог: ");
        push_decimal(&mut p, cfg.slot_lag_threshold);
        p.append(")");
    }
    if analysis.is_rtt_high {
        if analysis.is_slot_lagging {
            p.append("; ");
        }
        p.append("высокий RTT: ");
        push_decimal(&mut p, analysis.target_rtt_ms);
        p.append("ms (порог: ");
        push_decimal(&mut p, cfg.rtt_threshold_ms);
        p.append("ms)");
    }
    assert(p@ =~= before + prompt_issues(*analysis, cfg@));
    p.append(
        "\n\nНапиши краткий технический алерт на русском языке.\nТребования: максимум 200 символов, только текст, без markdown, без emoji.",
    );
    assert(p@ =~= prompt_text(target_url@, *analysis, cfg@));
    p
}

/// The JSON body of a chat-completion request for `prompt`, to the model
/// of `cfg`, with at most 256 tokens in the answer.
pub fn chat_request_body(cfg: &Config, prompt: &str) -> (b: JsonValue)
    ensures
        json_view(b) == chat_request_view(cfg.mistral_model@, prompt@),
{
    let mut message_members: Vec<JsonMember> = Vec::new();
    message_members.push(JsonMember::new("role", JsonValue::text("user")));
    message_members.push(JsonMember::new("content", JsonValue::text(prompt)));
    let message = JsonValue::Object(message_members);
    let ghost message_view = JsonView::Object(
        seq![("role"@, JsonView::Str("user"@)), ("content"@, JsonView::Str(prompt@))],
    );
    proof {
        let m = match json_view(message) {
            JsonView::Object(m) => m,
            _ => Seq::empty(),
        };
        assert(m =~= seq![("role"@, JsonView::Str("user"@)), ("content"@, JsonView::Str(prompt@))]);
    }
    assert(json_view(message) == message_view);
    let mut messages: Vec<JsonValue> = Vec::new();
    messages.push(message);
    let messages = JsonValue::Array(messages);
    proof {
        let a = match json_view(messages) {
            JsonView::Array(a) => a,
            _ => Seq::empty(),
        };
        assert(a =~= seq![message_view]);
    }
    assert(json_view(messages) == JsonView::Array(seq![message_view]));
    let mut members: Vec<JsonMember> = Vec::new();
    members.push(JsonMember::new("model", JsonValue::text(cfg.mistral_model.as_str())));
    let max_tokens = JsonValue::Number(String::from_str("256"));
    assert(json_view(max_tokens) == JsonView::Number("256"@));
    members.push(JsonMember::new("max_tokens", max_tokens));
    members.push(JsonMember::new("messages", messages));
    let body = JsonValue::Object(members);
    proof {
        let m = match json_view(body) {
            JsonView::Object(m) => m,
            _ => Seq::empty(),
        };
        assert(m =~= seq![
            ("model"@, JsonView::Str(cfg.mistral_model@)),
            ("max_tokens"@, JsonView::Number("256"@)),
            ("messages"@, JsonView::Array(seq![message_view])),
        ]);
    }
    body
}

/// The value of the `Authorization` header: `Bearer ` and the API key.
pub fn authorization_header(cfg: &Config) -> (h: String)
    ensures
        h@ == "Bearer "@ + cfg.mistral_api_key@,
{
    let mut h = String::from_str("Bearer ");
    h.append(cfg.mistral_api_key.as_str());
    h
}

/// The alert text of a reply: the string at `choices[0].message.content`,
/// trimmed and cut to at most 200 characters; an LLM error ending with the
/// reply as `serde_json` prints it when there is no such string.
pub fn alert_text_from_reply(reply: &JsonValue) -> (r: Result<String, SentinelError>)
    ensures
        match reply_content(json_view(*reply)) {
            Some(content) => r matches Ok(t) && t@ == alert_from_content(content),
            None => r matches Err(e) && e@ == SentinelErrorView::Llm(
                missing_content_message(json_view(*reply)),
            ),
        },
        r matches Ok(t) ==> t@.len() <= max_alert_chars(),
{
    let content = match reply.get("choices") {
        Some(choices) => match choices.at(0) {
            Some(choice) => match choice.get("message") {
                Some(message) => match message.get("content") {
                    Some(content) => content.as_str(),
                    None => None,
                },
                None => None,
            },
            None => None,
        },
        None => None,
    };
    match content {
        Some(text) => {
            let t = trimmed(text);
            let len = t.as_str().unicode_len();
            if len <= 200 {
                Ok(t)
            } else {
                let cut = String::from_str(t.as_str().substring_char(0, 200));
                assert(cut@ =~= alert_from_content(text@));
                Ok(cut)
            }
        },
        None => {
            let mut msg = String::from_str("поле choices[0].message.content отсутствует в ответе: ");
            let rendered = render_json(reply);
            msg.append(rendered.as_str());
            Err(SentinelError::Llm(msg))
        },
    }
}

/// The prompt lists exactly the violated conditions: the slot-lag item (the
/// delta and the slot threshold) when and only when the node lags, the
/// high-RTT item (the response time and its threshold) when and only when
/// the response time is high, in that order and joined by `; `, between the
/// fixed head naming the node and the fixed instructions.
pub proof fn prompt_lists_exactly_the_violated_conditions(
    target_url: Seq<char>,
    a: Analysis,
    c: ConfigView,
)
    ensures
        ({
            let head = "Ты — система мониторинга Solana-ноды. Зафиксирован инцидент.\nНода: "@
                + target_url + "\nПроблемы: "@;
            let tail =
                "\n\nНапиши краткий технический алерт на русском языке.\nТребования: максимум 200 символов, только текст, без markdown, без emoji."@;
            let lag = "отставание слотов: "@ + signed_decimal(a.slot_delta as int) + " (порог: "@
                + decimal(c.slot_lag_threshold as nat) + ")"@;
            let rtt = "высокий RTT: "@ + decimal(a.target_rtt_ms as nat) + "ms (порог: "@
                + decimal(c.rtt_threshold_ms as nat) + "ms)"@;
            let p = prompt_text(target_url, a, c);
            &&& a.is_slot_lagging && a.is_rtt_high ==> p == head + lag + "; "@ + rtt + tail
            &&& a.is_slot_lagging && !a.is_rtt_high ==> p == head + lag + tail
            &&& !a.is_slot_lagging && a.is_rtt_high ==> p == head + rtt + tail
            &&& !a.is_slot_lagging && !a.is_rtt_high ==> p == head + tail
        }),
{
    let head = "Ты — система мониторинга Solana-ноды. Зафиксирован инцидент.\nНода: "@ + target_url
        + "\nПроблемы: "@;
    let tail =
        "\n\nНапиши краткий технический алерт на русском языке.\nТребования: максимум 200 символов, только текст, без markdown, без emoji."@;
    let lag = "отставание слотов: "@ + signed_decimal(a.slot_delta as int) + " (порог: "@ + decimal(
        c.slot_lag_threshold as nat,
    ) + ")"@;
    let rtt = "высокий RTT: "@ + decimal(a.target_rtt_ms as nat) + "ms (порог: "@ + decimal(
        c.rtt_threshold_ms as nat,
    ) + "ms)"@;
    let p = prompt_text(target_url, a, c);
    if a.is_slot_lagging && a.is_rtt_high {
        assert(p =~= head + lag + "; "@ + rtt + tail);
    } else if a.is_slot_lagging {
        assert(p =~= head + lag + tail);
    } else if a.is_rtt_high {
        assert(p =~= head + rtt + tail);
    } else {
        assert(p =~= head + tail);
    }
}

/// The alert keeps the model's whole trimmed answer when it has at most 200
/// characters, and otherwise its first 200 characters: it is always a
/// prefix of the trimmed answer, of length `min(len, 200)`.
pub proof fn alert_is_the_trimmed_answer_capped_at_200(content: Seq<char>)
    ensures
        alert_from_content(content).len() == if trim(content).len() <= 200 {
            trim(content).len()
        } else {
            200
        },
        forall|i: int|
            0 <= i < alert_from_content(content).len() ==> #[trigger] alert_from_content(
                content,
            )[i] == trim(content)[i],
        trim(content).len() <= 200 ==> alert_from_content(content) == trim(content),
{
}

/// The chat request has exactly three members, each key once: the model of
/// the configuration, a limit of 256 tokens, and one message, which has
/// exactly the role `user` and the prompt as its content, each key once.
pub proof fn chat_request_has_each_member_once(model: Seq<char>, prompt: Seq<char>)
    ensures
        chat_request_view(model, prompt) matches JsonView::Object(members) && {
            &&& members.len() == 3
            &&& distinct_keys(members)
            &&& member_lookup(members, "model"@) == Some(JsonView::Str(model))
            &&& member_lookup(members, "max_tokens"@) == Some(JsonView::Number("256"@))
            &&& member_lookup(members, "messages"@) == Some(
                JsonView::Array(
                    seq![
                        JsonView::Object(
                            seq![("role"@, JsonView::Str("user"@)), ("content"@, JsonView::Str(prompt))],
                        ),
                    ],
                ),
            )
            &&& distinct_keys(
                seq![("role"@, JsonView::Str("user"@)), ("content"@, JsonView::Str(prompt))],
            )
        },
{
    reveal_strlit("model");
    reveal_strlit("max_tokens");
    reveal_strlit("messages");
    reveal_strlit("role");
    reveal_strlit("content");
    let message = seq![("role"@, JsonView::Str("user"@)), ("content"@, JsonView::Str(prompt))];
    let messages = seq![JsonView::Object(message)];
    let members = seq![
        ("model"@, JsonView::Str(model)),
        ("max_tokens"@, JsonView::Number("256"@)),
        ("messages"@, JsonView::Array(messages)),
    ];
    assert("model"@.len() != "max_tokens"@.len());
    assert("model"@.len() != "messages"@.len());
    assert("max_tokens"@.len() != "messages"@.len());
    assert("role"@.len() != "content"@.len());
    assert(members.drop_first() =~= seq![
        ("max_tokens"@, JsonView::Number("256"@)),
        ("messages"@, JsonView::Array(messages)),
    ]);
    let rest = members.drop_first();
    let last = rest.drop_first();
    assert(last =~= seq![("messages"@, JsonView::Array(messages))]);
    assert(member_lookup(members, "model"@) == Some(JsonView::Str(model)));
    assert(member_lookup(rest, "max_tokens"@) == Some(JsonView::Number("256"@)));
    assert(member_lookup(members, "max_tokens"@) == Some(JsonView::Number("256"@)));
    assert(member_lookup(last, "messages"@) == Some(JsonView::Array(messages)));
    assert(member_lookup(rest, "messages"@) == Some(JsonView::Array(messages)));
    assert(member_lookup(members, "messages"@) == Some(JsonView::Array(messages)));
    assert forall|i: int, j: int| 0 <= i < j < members.len() implies #[trigger] members[i].0
        != #[trigger] members[j].0 by {
        assert(members[0].0 == "model"@);
        assert(members[1].0 == "max_tokens"@);
        assert(members[2].0 == "messages"@);
    }
    assert forall|i: int, j: int| 0 <= i < j < message.len() implies #[trigger] message[i].0
        != #[trigger] message[j].0 by {
        assert(message[0].0 == "role"@);
        assert(message[1].0 == "content"@);
    }
    assert(chat_request_view(model, prompt) == JsonView::Object(members));
}

} // verus!
