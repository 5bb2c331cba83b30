//! The ConfigMap of a bot.

use crate::common::config::AppConfig;
use crate::common::content::Content;
use crate::common::json::{config_json_text, serialize_config};
use crate::common::string_map::{Labels, StringMap};
use crate::common::text::owned;
use crate::controller::labels::{make_managed_meta, managed_meta};
use crate::controller::traits::{FromHub, ResourceDrift};
use crate::crd::hub::bot::Bot;
use crate::objects::{ConfigMap, ConfigMapView, OwnerReference, OwnerReferenceView};
use vstd::prelude::*;

verus! {

/// The data of a bot's ConfigMap: `config.json` with the configuration
/// text; `strategy.py` with the strategy's inline source (empty where there
/// is none), unless a ConfigMap of the user holds the strategy; `model.py`
/// where the model's source is given inline.
pub open spec fn config_map_data(bot: &Bot, config_text: Seq<char>) -> Labels {
    let base = Map::<Seq<char>, Seq<char>>::empty().insert("config.json"@, config_text);
    let with_strategy = if bot.spec.strategy.config_map_name is None {
        base.insert(
            "strategy.py"@,
            match bot.spec.strategy.source {
                Some(s) => s@,
                None => Seq::empty(),
            },
        )
    } else {
        base
    };
    if bot.spec.model is Some && bot.spec.model->0.source is Some {
        with_strategy.insert("model.py"@, bot.spec.model->0.source->0@)
    } else {
        with_strategy
    }
}

/// The ConfigMap that a bot projects to, given the text of its
/// configuration.
pub open spec fn config_map_of(
    bot: &Bot,
    name: Seq<char>,
    namespace: Seq<char>,
    owner_ref: OwnerReferenceView,
    config_text: Seq<char>,
) -> ConfigMapView {
    ConfigMapView {
        metadata: managed_meta(name, namespace, owner_ref, None, None),
        data: Some(config_map_data(bot, config_text)),
    }
}

/// Builds the ConfigMap of a bot from the text of its configuration.
pub fn config_map_with_text(
    bot: &Bot,
    name: &str,
    namespace: &str,
    owner_ref: OwnerReference,
    config_text: String,
) -> (r: ConfigMap)
    ensures
        r.deep_view() == config_map_of(bot, name@, namespace@, owner_ref.deep_view(), config_text@),
{
    let mut data = StringMap::new();
    data.insert(owned("config.json"), config_text);
    if bot.spec.strategy.config_map_name.is_none() {
        let source = match &bot.spec.strategy.source {
            Some(s) => s.clone(),
            None => String::new(),
        };
        data.insert(owned("strategy.py"), source);
    }
    match &bot.spec.model {
        Some(m) => {
            match &m.source {
                Some(s) => {
                    data.insert(owned("model.py"), s.clone());
                },
                None => {},
            }
        },
        None => {},
    }
    ConfigMap { metadata: make_managed_meta(name, namespace, owner_ref, &None, &None), data: Some(data) }
}

impl FromHub<Bot> for ConfigMap {
    /// The ConfigMap carries the JSON text of the configuration; for a bot
    /// without configuration that text is `null`.
    open spec fn is_projection(
        hub: &Bot,
        name: Seq<char>,
        namespace: Seq<char>,
        owner_ref: OwnerReferenceView,
        config: &AppConfig,
        object: ConfigMapView,
    ) -> bool {
        &&& object == config_map_of(hub, name, namespace, owner_ref, config_json_text(hub.spec.config))
        &&& hub.spec.config is None ==> object == config_map_of(hub, name, namespace, owner_ref, "null"@)
    }

    /// Projects a bot onto its ConfigMap.
    fn from_hub(bot: &Bot, name: &str, namespace: &str, owner_ref: OwnerReference, _config: &AppConfig) -> (r:
        Self) {
        let config_text = match serialize_config(&bot.spec.config) {
            Ok(text) => text,
            Err(_) => String::new(),
        };
        config_map_with_text(bot, name, namespace, owner_ref, config_text)
    }
}

impl ResourceDrift<Bot> for ConfigMap {
    /// A ConfigMap has drifted exactly if its data differ.
    open spec fn drifted(observed: ConfigMapView, desired: ConfigMapView) -> bool {
        observed.data != desired.data
    }

    /// Whether the stored ConfigMap has drifted from the projected one.
    fn has_drifted(&self, other: &Self) -> (r: bool) {
        !self.data.same(&other.data)
    }
}

} // verus!
