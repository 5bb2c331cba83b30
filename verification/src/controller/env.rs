//! The environment of the bot's container.

use crate::common::content::{append_items, push_item};
use crate::common::text::{bool_text, bool_to_string, decimal, owned, u16_to_string};
use crate::crd::hub::bot::Bot;
use crate::crd::hub::common::SecretItem;
use crate::objects::{
    EnvVar, EnvVarSource, EnvVarSourceView, EnvVarView, SecretKeySelector, SecretKeySelectorView,
};
use vstd::prelude::*;

verus! {

/// A variable with a plain value, or with none.
pub open spec fn plain_env(name: Seq<char>, value: Option<Seq<char>>) -> EnvVarView {
    EnvVarView { name: name, value: value, value_from: None }
}

/// A variable that carries a secret: an inline value becomes the plain
/// value, a reference becomes a reference to the key of the Secret, and an
/// absent secret leaves the variable with its name alone.
pub open spec fn secret_env(name: Seq<char>, item: Option<SecretItem>) -> EnvVarView {
    EnvVarView {
        name: name,
        value: match item {
            Some(SecretItem::Value { value }) => Some(value@),
            _ => None,
        },
        value_from: match item {
            Some(SecretItem::SecretKeyRef { secret_key_ref }) => Some(
                EnvVarSourceView::SecretKeyRef(
                    SecretKeySelectorView {
                        name: secret_key_ref.name@,
                        key: secret_key_ref.key@,
                        optional: None,
                    },
                ),
            ),
            _ => None,
        },
    }
}

/// Builds a variable with a plain value, or with none.
pub fn create_env_var(name: &str, value: Option<String>) -> (r: EnvVar)
    ensures
        r.deep_view() == plain_env(name@, value.deep_view()),
{
    EnvVar { name: owned(name), value: value, value_from: None }
}

/// Builds a variable that carries a secret.
pub fn create_secret_env_var(name: &str, secret_item: &Option<SecretItem>) -> (r: EnvVar)
    ensures
        r.deep_view() == secret_env(name@, *secret_item),
{
    let value = match secret_item {
        Some(SecretItem::Value { value }) => Some(value.clone()),
        _ => None,
    };
    let value_from = match secret_item {
        Some(SecretItem::SecretKeyRef { secret_key_ref }) => Some(
            EnvVarSource::SecretKeyRef(
                SecretKeySelector {
                    name: secret_key_ref.name.clone(),
                    key: secret_key_ref.key.clone(),
                    optional: None,
                },
            ),
        ),
        _ => None,
    };
    EnvVar { name: owned(name), value: value, value_from: value_from }
}

/// The chat id of the Telegram group: absent without the group, empty
/// where the group names none.
pub open spec fn telegram_chat_id(bot: &Bot) -> Option<Seq<char>> {
    match bot.spec.secrets.telegram {
        Some(t) => match t.chat_id {
            Some(id) => Some(id@),
            None => Some(Seq::empty()),
        },
        None => None,
    }
}

/// A secret of the API group.
pub open spec fn api_secret(bot: &Bot, which: int) -> Option<SecretItem> {
    match bot.spec.secrets.api {
        Some(a) => if which == 0 {
            a.username
        } else if which == 1 {
            a.password
        } else if which == 2 {
            a.ws_token
        } else {
            a.jwt_secret_key
        },
        None => None,
    }
}

/// The token of the Telegram group.
pub open spec fn telegram_token(bot: &Bot) -> Option<SecretItem> {
    match bot.spec.secrets.telegram {
        Some(t) => t.token,
        None => None,
    }
}

/// A secret of the exchange group.
pub open spec fn exchange_secret(bot: &Bot, which: int) -> Option<SecretItem> {
    match bot.spec.secrets.exchange {
        Some(e) => if which == 0 {
            e.key
        } else if which == 1 {
            e.secret
        } else if which == 2 {
            e.password
        } else {
            e.uid
        },
        None => None,
    }
}

/// The variables that the operator sets on every bot, in their fixed order.
pub open spec fn operator_env(bot: &Bot, name: Seq<char>) -> Seq<EnvVarView> {
    seq![
        plain_env("FREQTRADE__STRATEGY"@, Some(bot.spec.strategy.name@)),
        plain_env("FREQTRADE__STRATEGY_PATH"@, Some("/etc/freqtrade"@)),
        plain_env("FREQTRADE__FREQAIMODEL_PATH"@, Some("/etc/freqtrade"@)),
        plain_env("FREQTRADE__DB_URL"@, Some(bot.spec.database@)),
        plain_env("FREQTRADE__BOT_NAME"@, Some(name)),
        plain_env("FREQTRADE__API_SERVER__ENABLED"@, Some(bool_text(bot.spec.api.enabled))),
        plain_env("FREQTRADE__API_SERVER__LISTEN_IP_ADDRESS"@, Some(bot.spec.api.host@)),
        plain_env("FREQTRADE__API_SERVER__LISTEN_PORT"@, Some(decimal(bot.spec.api.port as nat))),
        plain_env("FREQTRADE__EXCHANGE__NAME"@, Some(bot.spec.exchange@)),
        plain_env("FREQTRADE__TELEGRAM__CHAT_ID"@, telegram_chat_id(bot)),
        secret_env("FREQTRADE__API_SERVER__USERNAME"@, api_secret(bot, 0)),
        secret_env("FREQTRADE__API_SERVER__PASSWORD"@, api_secret(bot, 1)),
        secret_env("FREQTRADE__API_SERVER__WS_TOKEN"@, api_secret(bot, 2)),
        secret_env("FREQTRADE__API_SERVER__JWT_SECRET_KEY"@, api_secret(bot, 3)),
        secret_env("FREQTRADE__TELEGRAM__TOKEN"@, telegram_token(bot)),
        secret_env("FREQTRADE__EXCHANGE__KEY"@, exchange_secret(bot, 0)),
        secret_env("FREQTRADE__EXCHANGE__SECRET"@, exchange_secret(bot, 1)),
        secret_env("FREQTRADE__EXCHANGE__PASSWORD"@, exchange_secret(bot, 2)),
        secret_env("FREQTRADE__EXCHANGE__UID"@, exchange_secret(bot, 3)),
    ]
}

/// The flag that a declared model adds.
pub open spec fn model_env(bot: &Bot) -> Seq<EnvVarView> {
    if bot.spec.model is Some {
        seq![plain_env("FREQTRADE__FREQAI__ENABLED"@, Some("true"@))]
    } else {
        Seq::empty()
    }
}

/// The whole environment: the operator's variables, the model flag, then
/// the user's variables as they were given.
pub open spec fn container_env(bot: &Bot, name: Seq<char>) -> Seq<EnvVarView> {
    operator_env(bot, name) + model_env(bot) + bot.spec.deployment.env.deep_view()
}

/// Builds the operator's variables.
fn make_operator_env(bot: &Bot, name: &str) -> (r: Vec<EnvVar>)
    ensures
        r.deep_view() == operator_env(bot, name@),
{
    let mut env: Vec<EnvVar> = Vec::new();
    assert(env.deep_view() =~= Seq::empty());
    push_item(&mut env, create_env_var("FREQTRADE__STRATEGY", Some(bot.spec.strategy.name.clone())));
    push_item(&mut env, create_env_var("FREQTRADE__STRATEGY_PATH", Some(owned("/etc/freqtrade"))));
    push_item(&mut env, create_env_var("FREQTRADE__FREQAIMODEL_PATH", Some(owned("/etc/freqtrade"))));
    push_item(&mut env, create_env_var("FREQTRADE__DB_URL", Some(bot.spec.database.clone())));
    push_item(&mut env, create_env_var("FREQTRADE__BOT_NAME", Some(owned(name))));
    push_item(
        &mut env,
        create_env_var("FREQTRADE__API_SERVER__ENABLED", Some(bool_to_string(bot.spec.api.enabled))),
    );
    push_item(
        &mut env,
        create_env_var("FREQTRADE__API_SERVER__LISTEN_IP_ADDRESS", Some(bot.spec.api.host.clone())),
    );
    push_item(
        &mut env,
        create_env_var("FREQTRADE__API_SERVER__LISTEN_PORT", Some(u16_to_string(bot.spec.api.port))),
    );
    push_item(&mut env, create_env_var("FREQTRADE__EXCHANGE__NAME", Some(bot.spec.exchange.clone())));
    let chat_id = match &bot.spec.secrets.telegram {
        Some(t) => match &t.chat_id {
            Some(id) => Some(id.clone()),
            None => Some(String::new()),
        },
        None => None,
    };
    push_item(&mut env, create_env_var("FREQTRADE__TELEGRAM__CHAT_ID", chat_id));
    match &bot.spec.secrets.api {
        Some(a) => {
            push_item(&mut env, create_secret_env_var("FREQTRADE__API_SERVER__USERNAME", &a.username));
            push_item(&mut env, create_secret_env_var("FREQTRADE__API_SERVER__PASSWORD", &a.password));
            push_item(&mut env, create_secret_env_var("FREQTRADE__API_SERVER__WS_TOKEN", &a.ws_token));
            push_item(
                &mut env,
                create_secret_env_var("FREQTRADE__API_SERVER__JWT_SECRET_KEY", &a.jwt_secret_key),
            );
        },
        None => {
            push_item(&mut env, create_env_var("FREQTRADE__API_SERVER__USERNAME", None));
            push_item(&mut env, create_env_var("FREQTRADE__API_SERVER__PASSWORD", None));
            push_item(&mut env, create_env_var("FREQTRADE__API_SERVER__WS_TOKEN", None));
            push_item(&mut env, create_env_var("FREQTRADE__API_SERVER__JWT_SECRET_KEY", None));
        },
    }
    match &bot.spec.secrets.telegram {
        Some(t) => {
            push_item(&mut env, create_secret_env_var("FREQTRADE__TELEGRAM__TOKEN", &t.token));
        },
        None => {
            push_item(&mut env, create_env_var("FREQTRADE__TELEGRAM__TOKEN", None));
        },
    }
    match &bot.spec.secrets.exchange {
        Some(e) => {
            push_item(&mut env, create_secret_env_var("FREQTRADE__EXCHANGE__KEY", &e.key));
            push_item(&mut env, create_secret_env_var("FREQTRADE__EXCHANGE__SECRET", &e.secret));
            push_item(&mut env, create_secret_env_var("FREQTRADE__EXCHANGE__PASSWORD", &e.password));
            push_item(&mut env, create_secret_env_var("FREQTRADE__EXCHANGE__UID", &e.uid));
        },
        None => {
            push_item(&mut env, create_env_var("FREQTRADE__EXCHANGE__KEY", None));
            push_item(&mut env, create_env_var("FREQTRADE__EXCHANGE__SECRET", None));
            push_item(&mut env, create_env_var("FREQTRADE__EXCHANGE__PASSWORD", None));
            push_item(&mut env, create_env_var("FREQTRADE__EXCHANGE__UID", None));
        },
    }
    assert(env.deep_view() =~= operator_env(bot, name@));
    env
}

/// Builds the whole environment of the bot's container.
pub fn make_container_env(bot: &Bot, name: &str) -> (r: Vec<EnvVar>)
    ensures
        r.deep_view() == container_env(bot, name@),
{
    let mut env = make_operator_env(bot, name);
    if bot.spec.model.is_some() {
        push_item(&mut env, create_env_var("FREQTRADE__FREQAI__ENABLED", Some(owned("true"))));
    }
    assert(env.deep_view() =~= operator_env(bot, name@) + model_env(bot));
    append_items(&mut env, &bot.spec.deployment.env);
    env
}

} // verus!
