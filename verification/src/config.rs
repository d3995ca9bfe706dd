//! The watchdog's configuration, built from the values of its environment
//! variables.

use vstd::prelude::*;
use crate::error::{SentinelError, SentinelErrorView, view_result};
use crate::text::{decimal, parse_u64, parse_u64_str, push_decimal};

verus! {

/// Application-wide settings, read once at start-up.
#[derive(Debug, Clone)]
pub struct Config {
    /// URL of the node being monitored.
    pub target_rpc_url: String,
    /// URL of the node the target's slot is compared with.
    pub reference_rpc_url: String,
    /// Seconds between two probes.
    pub poll_interval_secs: u64,
    /// Largest tolerated slot lag of the target behind the reference.
    pub slot_lag_threshold: u64,
    /// Largest tolerated response time of the target, in milliseconds.
    pub rtt_threshold_ms: u64,
    /// Least number of seconds between two alerts.
    pub alert_cooldown_secs: u64,
    /// Secret key of the Mistral API.
    pub mistral_api_key: String,
    /// Model that writes the alert text.
    pub mistral_model: String,
    /// Token of the Telegram bot.
    pub telegram_bot_token: String,
    /// Chat or channel the alerts go to.
    pub telegram_chat_id: String,
}

/// The contents of a [`Config`], with texts as character sequences.
pub struct ConfigView {
    pub target_rpc_url: Seq<char>,
    pub reference_rpc_url: Seq<char>,
    pub poll_interval_secs: u64,
    pub slot_lag_threshold: u64,
    pub rtt_threshold_ms: u64,
    pub alert_cooldown_secs: u64,
    pub mistral_api_key: Seq<char>,
    pub mistral_model: Seq<char>,
    pub telegram_bot_token: Seq<char>,
    pub telegram_chat_id: Seq<char>,
}

impl View for Config {
    type V = ConfigView;

    open spec fn view(&self) -> ConfigView {
        ConfigView {
            target_rpc_url: self.target_rpc_url@,
            reference_rpc_url: self.reference_rpc_url@,
            poll_interval_secs: self.poll_interval_secs,
            slot_lag_threshold: self.slot_lag_threshold,
            rtt_threshold_ms: self.rtt_threshold_ms,
            alert_cooldown_secs: self.alert_cooldown_secs,
            mistral_api_key: self.mistral_api_key@,
            mistral_model: self.mistral_model@,
            telegram_bot_token: self.telegram_bot_token@,
            telegram_chat_id: self.telegram_chat_id@,
        }
    }
}

/// The values of the environment variables the configuration is read from;
/// `None` for a variable that is not set (or not valid Unicode).
pub struct EnvVars {
    pub solana_target_rpc_url: Option<String>,
    pub solana_reference_rpc_url: Option<String>,
    pub sentinel_poll_interval_secs: Option<String>,
    pub sentinel_slot_lag_threshold: Option<String>,
    pub sentinel_rtt_threshold_ms: Option<String>,
    pub sentinel_alert_cooldown_secs: Option<String>,
    pub mistral_api_key: Option<String>,
    pub mistral_model: Option<String>,
    pub telegram_bot_token: Option<String>,
    pub telegram_chat_id: Option<String>,
}

/// The contents of an [`EnvVars`].
pub struct EnvVarsView {
    pub solana_target_rpc_url: Option<Seq<char>>,
    pub solana_reference_rpc_url: Option<Seq<char>>,
    pub sentinel_poll_interval_secs: Option<Seq<char>>,
    pub sentinel_slot_lag_threshold: Option<Seq<char>>,
    pub sentinel_rtt_threshold_ms: Option<Seq<char>>,
    pub sentinel_alert_cooldown_secs: Option<Seq<char>>,
    pub mistral_api_key: Option<Seq<char>>,
    pub mistral_model: Option<Seq<char>>,
    pub telegram_bot_token: Option<Seq<char>>,
    pub telegram_chat_id: Option<Seq<char>>,
}

impl View for EnvVars {
    type V = EnvVarsView;

    open spec fn view(&self) -> EnvVarsView {
        EnvVarsView {
            solana_target_rpc_url: self.solana_target_rpc_url.deep_view(),
            solana_reference_rpc_url: self.solana_reference_rpc_url.deep_view(),
            sentinel_poll_interval_secs: self.sentinel_poll_interval_secs.deep_view(),
            sentinel_slot_lag_threshold: self.sentinel_slot_lag_threshold.deep_view(),
            sentinel_rtt_threshold_ms: self.sentinel_rtt_threshold_ms.deep_view(),
            sentinel_alert_cooldown_secs: self.sentinel_alert_cooldown_secs.deep_view(),
            mistral_api_key: self.mistral_api_key.deep_view(),
            mistral_model: self.mistral_model.deep_view(),
            telegram_bot_token: self.telegram_bot_token.deep_view(),
            telegram_chat_id: self.telegram_chat_id.deep_view(),
        }
    }
}

/// The message for a required variable `name` that is not set.
pub open spec fn missing_variable_message(name: Seq<char>) -> Seq<char> {
    "обязательная переменная '"@ + name + "' не задана в .env или окружении"@
}

/// The message for a numeric variable `name` whose value `value` is not a
/// `u64`.
pub open spec fn not_a_number_message(name: Seq<char>, value: Seq<char>) -> Seq<char> {
    "переменная '"@ + name + "' должна быть числом, получено: '"@ + value + "'"@
}

/// A required variable: its value, or a configuration error naming it.
pub open spec fn required_setting(name: Seq<char>, value: Option<Seq<char>>) -> Result<
    Seq<char>,
    SentinelErrorView,
> {
    match value {
        Some(v) => Ok(v),
        None => Err(SentinelErrorView::Config(missing_variable_message(name))),
    }
}

/// A numeric variable: `default` when it is not set, its value when it
/// parses as a `u64`, a configuration error otherwise.
pub open spec fn u64_setting(name: Seq<char>, value: Option<Seq<char>>, default: u64) -> Result<
    u64,
    SentinelErrorView,
> {
    match value {
        None => Ok(default),
        Some(v) => match parse_u64(v) {
            Some(n) => Ok(n),
            None => Err(SentinelErrorView::Config(not_a_number_message(name, v))),
        },
    }
}

/// An optional text variable: its value, or `default` when it is not set.
pub open spec fn text_setting(value: Option<Seq<char>>, default: Seq<char>) -> Seq<char> {
    match value {
        Some(v) => v,
        None => default,
    }
}

/// The configuration that the variables `v` give: the settings are read in
/// the order of the fields of [`Config`], and the first one that fails
/// decides the error.
pub open spec fn config_from_vars(v: EnvVarsView) -> Result<ConfigView, SentinelErrorView> {
    match required_setting("SOLANA_TARGET_RPC_URL"@, v.solana_target_rpc_url) {
        Err(e) => Err(e),
        Ok(target) => match u64_setting(
            "SENTINEL_POLL_INTERVAL_SECS"@,
            v.sentinel_poll_interval_secs,
            10,
        ) {
            Err(e) => Err(e),
            Ok(poll) => match u64_setting(
                "SENTINEL_SLOT_LAG_THRESHOLD"@,
                v.sentinel_slot_lag_threshold,
                5,
            ) {
                Err(e) => Err(e),
                Ok(lag) => match u64_setting(
                    "SENTINEL_RTT_THRESHOLD_MS"@,
                    v.sentinel_rtt_threshold_ms,
                    500,
                ) {
                    Err(e) => Err(e),
                    Ok(rtt) => match u64_setting(
                        "SENTINEL_ALERT_COOLDOWN_SECS"@,
                        v.sentinel_alert_cooldown_secs,
                        300,
                    ) {
                        Err(e) => Err(e),
                        Ok(cooldown) => match required_setting(
                            "MISTRAL_API_KEY"@,
                            v.mistral_api_key,
                        ) {
                            Err(e) => Err(e),
                            Ok(key) => match required_setting(
                                "TELEGRAM_BOT_TOKEN"@,
                                v.telegram_bot_token,
                            ) {
                                Err(e) => Err(e),
                                Ok(token) => match required_setting(
                                    "TELEGRAM_CHAT_ID"@,
                                    v.telegram_chat_id,
                                ) {
                                    Err(e) => Err(e),
                                    Ok(chat) => Ok(
                                        ConfigView {
                                            target_rpc_url: target,
                                            reference_rpc_url: text_setting(
                                                v.solana_reference_rpc_url,
                                                "https://api.mainnet-beta.solana.com"@,
                                            ),
                                            poll_interval_secs: poll,
                                            slot_lag_threshold: lag,
                                            rtt_threshold_ms: rtt,
                                            alert_cooldown_secs: cooldown,
                                            mistral_api_key: key,
                                            mistral_model: text_setting(
                                                v.mistral_model,
                                                "mistral-small-latest"@,
                                            ),
                                            telegram_bot_token: token,
                                            telegram_chat_id: chat,
                                        },
                                    ),
                                },
                            },
                        },
                    },
                },
            },
        },
    }
}

/// What `{:?}` prints for a duration of `secs` whole seconds.
pub open spec fn seconds_debug(secs: u64) -> Seq<char> {
    if secs == 0 {
        "0ns"@
    } else {
        decimal(secs as nat) + "s"@
    }
}

/// The number of leading characters of a secret that the summary shows.
pub open spec fn shown_secret_chars() -> nat {
    8
}

/// A secret as the summary shows it: its first 8 characters (all of it when
/// shorter), then `***` in place of the rest.
pub open spec fn masked(secret: Seq<char>) -> Seq<char> {
    (if secret.len() <= shown_secret_chars() {
        secret
    } else {
        secret.take(shown_secret_chars() as int)
    }) + "***"@
}

/// The one-line description of a configuration written at start-up; the
/// API key and the bot token appear masked, the chat is left out.
pub open spec fn summary_text(c: ConfigView) -> Seq<char> {
    "target="@ + c.target_rpc_url + " reference="@ + c.reference_rpc_url + " interval="@
        + seconds_debug(c.poll_interval_secs) + " slot_lag_threshold="@ + decimal(
        c.slot_lag_threshold as nat,
    ) + " rtt_threshold_ms="@ + decimal(c.rtt_threshold_ms as nat) + "ms cooldown="@
        + seconds_debug(c.alert_cooldown_secs) + " model="@ + c.mistral_model + " api_key="@
        + masked(c.mistral_api_key) + " bot_token="@ + masked(c.telegram_bot_token)
}

/// The value of a required variable, or a configuration error naming it.
pub fn require_value(name: &str, value: Option<String>) -> (r: Result<String, SentinelError>)
    ensures
        view_result(r) == required_setting(name@, value.deep_view()),
{
    match value {
        Some(v) => Ok(v),
        None => {
            let mut msg = String::from_str("обязательная переменная '");
            msg.append(name);
            msg.append("' не задана в .env или окружении");
            assert(msg@ =~= missing_variable_message(name@));
            Err(SentinelError::Config(msg))
        },
    }
}

/// The value of a numeric variable, `default` when it is not set, or a
/// configuration error naming it when it is not a `u64`.
pub fn parse_u64_value(name: &str, value: Option<String>, default: u64) -> (r: Result<
    u64,
    SentinelError,
>)
    ensures
        view_result(r) == u64_setting(name@, value.deep_view(), default),
{
    match value {
        None => Ok(default),
        Some(v) => match parse_u64_str(v.as_str()) {
            Some(n) => Ok(n),
            None => {
                let mut msg = String::from_str("переменная '");
                msg.append(name);
                msg.append("' должна быть числом, получено: '");
                msg.append(v.as_str());
                msg.append("'");
                assert(msg@ =~= not_a_number_message(name@, v@));
                Err(SentinelError::Config(msg))
            },
        },
    }
}

/// The value of an optional text variable, or `default` when it is not set.
pub fn text_value(value: Option<String>, default: &str) -> (r: String)
    ensures
        r@ == text_setting(value.deep_view(), default@),
{
    match value {
        Some(v) => v,
        None => String::from_str(default),
    }
}

impl Config {
    /// Builds the configuration from the values of its environment
    /// variables, with the defaults and error messages of
    /// [`config_from_vars`].
    pub fn from_vars(vars: EnvVars) -> (r: Result<Config, SentinelError>)
        ensures
            view_result(r) == config_from_vars(vars@),
    {
        let ghost v = vars@;
        let target_rpc_url = match require_value("SOLANA_TARGET_RPC_URL", vars.solana_target_rpc_url) {
            Ok(s) => s,
            Err(e) => return Err(e),
        };
        let reference_rpc_url = text_value(
            vars.solana_reference_rpc_url,
            "https://api.mainnet-beta.solana.com",
        );
        let poll_interval_secs = match parse_u64_value(
            "SENTINEL_POLL_INTERVAL_SECS",
            vars.sentinel_poll_interval_secs,
            10,
        ) {
            Ok(n) => n,
            Err(e) => return Err(e),
        };
        let slot_lag_threshold = match parse_u64_value(
            "SENTINEL_SLOT_LAG_THRESHOLD",
            vars.sentinel_slot_lag_threshold,
            5,
        ) {
            Ok(n) => n,
            Err(e) => return Err(e),
        };
        let rtt_threshold_ms = match parse_u64_value(
            "SENTINEL_RTT_THRESHOLD_MS",
            vars.sentinel_rtt_threshold_ms,
            500,
        ) {
            Ok(n) => n,
            Err(e) => return Err(e),
        };
        let alert_cooldown_secs = match parse_u64_value(
            "SENTINEL_ALERT_COOLDOWN_SECS",
            vars.sentinel_alert_cooldown_secs,
            300,
        ) {
            Ok(n) => n,
            Err(e) => return Err(e),
        };
        let mistral_api_key = match require_value("MISTRAL_API_KEY", vars.mistral_api_key) {
            Ok(s) => s,
            Err(e) => return Err(e),
        };
        let mistral_model = text_value(vars.mistral_model, "mistral-small-latest");
        let telegram_bot_token = match require_value("TELEGRAM_BOT_TOKEN", vars.telegram_bot_token) {
            Ok(s) => s,
            Err(e) => return Err(e),
        };
        let telegram_chat_id = match require_value("TELEGRAM_CHAT_ID", vars.telegram_chat_id) {
            Ok(s) => s,
            Err(e) => return Err(e),
        };
        Ok(
            Config {
                target_rpc_url,
                reference_rpc_url,
                poll_interval_secs,
                slot_lag_threshold,
                rtt_threshold_ms,
                alert_cooldown_secs,
                mistral_api_key,
                mistral_model,
                telegram_bot_token,
                telegram_chat_id,
            },
        )
    }

    /// A one-line description of the configuration for the start-up log
    /// line; the API key and the bot token are masked, only their first 8
    /// characters are shown.
    pub fn summary(&self) -> (s: String)
        ensures
            s@ == summary_text(self@),
    {
        let mut s = String::from_str("target=");
        s.append(self.target_rpc_url.as_str());
        s.append(" reference=");
        s.append(self.reference_rpc_url.as_str());
        s.append(" interval=");
        push_seconds_debug(&mut s, self.poll_interval_secs);
        s.append(" slot_lag_threshold=");
        push_decimal(&mut s, self.slot_lag_threshold);
        s.append(" rtt_threshold_ms=");
        push_decimal(&mut s, self.rtt_threshold_ms);
        s.append("ms cooldown=");
        push_seconds_debug(&mut s, self.alert_cooldown_secs);
        s.append(" model=");
        s.append(self.mistral_model.as_str());
        s.append(" api_key=");
        push_masked(&mut s, self.mistral_api_key.as_str());
        s.append(" bot_token=");
        push_masked(&mut s, self.telegram_bot_token.as_str());
        assert(s@ =~= summary_text(self@));
        s
    }
}

/// Appends `secret` masked: its first 8 characters, then `***`.
pub fn push_masked(out: &mut String, secret: &str)
    ensures
        final(out)@ == old(out)@ + masked(secret@),
{
    let len = secret.unicode_len();
    let shown = if len <= 8 { len } else { 8 };
    out.append(secret.substring_char(0, shown));
    out.append("***");
    assert(secret@.subrange(0, shown as int) =~= if secret@.len() <= 8 {
        secret@
    } else {
        secret@.take(8)
    });
    assert(out@ =~= old(out)@ + masked(secret@));
}

/// Appends what `{:?}` prints for a duration of `secs` whole seconds.
pub fn push_seconds_debug(out: &mut String, secs: u64)
    ensures
        final(out)@ == old(out)@ + seconds_debug(secs),
{
    if secs == 0 {
        out.append("0ns");
    } else {
        push_decimal(out, secs);
        out.append("s");
    }
    assert(out@ =~= old(out)@ + seconds_debug(secs));
}

/// Whether a numeric variable can be read: unset, or set to a `u64`.
pub open spec fn readable_number(value: Option<Seq<char>>) -> bool {
    value matches Some(text) ==> parse_u64(text) is Some
}

/// Whether `field` is what a numeric variable gives: the number it is set
/// to, or `default` when it is unset.
pub open spec fn number_read(value: Option<Seq<char>>, default: u64, field: u64) -> bool {
    match value {
        Some(text) => parse_u64(text) == Some(field),
        None => field == default,
    }
}

/// Whether `field` is what a text variable gives: its value, or `default`
/// when it is unset.
pub open spec fn text_read(value: Option<Seq<char>>, default: Seq<char>, field: Seq<char>) -> bool {
    match value {
        Some(text) => field == text,
        None => field == default,
    }
}

/// Every setting is read as given: the configuration is built exactly when
/// the four required variables are set and each numeric variable is unset
/// or a `u64`; then each field holds its variable's value, a numeric one
/// the number it spells, and a default only where the variable is unset
/// (poll interval 10 s, slot lag 5, RTT 500 ms, cooldown 300 s, the
/// mainnet-beta reference and `mistral-small-latest`). A missing target URL
/// is the error reported first.
pub proof fn settings_are_read_as_given(v: EnvVarsView)
    ensures
        (config_from_vars(v) is Ok) <==> {
            &&& v.solana_target_rpc_url is Some
            &&& v.mistral_api_key is Some
            &&& v.telegram_bot_token is Some
            &&& v.telegram_chat_id is Some
            &&& readable_number(v.sentinel_poll_interval_secs)
            &&& readable_number(v.sentinel_slot_lag_threshold)
            &&& readable_number(v.sentinel_rtt_threshold_ms)
            &&& readable_number(v.sentinel_alert_cooldown_secs)
        },
        config_from_vars(v) matches Ok(c) ==> {
            &&& v.solana_target_rpc_url == Some(c.target_rpc_url)
            &&& v.mistral_api_key == Some(c.mistral_api_key)
            &&& v.telegram_bot_token == Some(c.telegram_bot_token)
            &&& v.telegram_chat_id == Some(c.telegram_chat_id)
            &&& text_read(
                v.solana_reference_rpc_url,
                "https://api.mainnet-beta.solana.com"@,
                c.reference_rpc_url,
            )
            &&& text_read(v.mistral_model, "mistral-small-latest"@, c.mistral_model)
            &&& number_read(v.sentinel_poll_interval_secs, 10, c.poll_interval_secs)
            &&& number_read(v.sentinel_slot_lag_threshold, 5, c.slot_lag_threshold)
            &&& number_read(v.sentinel_rtt_threshold_ms, 500, c.rtt_threshold_ms)
            &&& number_read(v.sentinel_alert_cooldown_secs, 300, c.alert_cooldown_secs)
        },
        v.solana_target_rpc_url is None ==> config_from_vars(v) == Err::<ConfigView, SentinelErrorView>(
            SentinelErrorView::Config(missing_variable_message("SOLANA_TARGET_RPC_URL"@)),
        ),
{
}

} // verus!
