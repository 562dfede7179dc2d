//! Aliases: the operator's own names for lights.

use vstd::prelude::*;
use vstd::string::*;
use crate::config::{Config, ConfigView};
use crate::exchange::Request;
use crate::inventory::{
    find_light, light_views, lights_request, spec_lights_request, spec_position, Light, LightView,
};

verus! {

/// The name of the light that `name` stands for: what the table holds for
/// it where it is an alias, else `name` itself.
pub open spec fn spec_resolve(name: Seq<char>, aliases: Map<Seq<char>, Seq<char>>) -> Seq<char> {
    if aliases.contains_key(name) {
        aliases[name]
    } else {
        name
    }
}

/// Turns what the operator typed into the name of a light.
pub fn resolve(name: &str, config: &Config) -> (canonical: String)
    ensures
        canonical@ == spec_resolve(name@, config@.aliases),
{
    match config.aliases.get(name) {
        Some(found) => found.clone(),
        None => name.to_owned(),
    }
}

/// Why an alias was not set.
#[derive(Clone, Debug, PartialEq, Eq)]
pub enum AliasError {
    /// The alias is in use already.
    Taken(String),
    /// The bridge has no light of this name.
    UnknownLight(String),
}

/// An `AliasError` as plain values.
pub enum AliasErrorView {
    Taken(Seq<char>),
    UnknownLight(Seq<char>),
}

impl View for AliasError {
    type V = AliasErrorView;

    open spec fn view(&self) -> AliasErrorView {
        match self {
            AliasError::Taken(alias) => AliasErrorView::Taken(alias@),
            AliasError::UnknownLight(name) => AliasErrorView::UnknownLight(name@),
        }
    }
}

/// The line that tells the operator why an alias was not set.
pub open spec fn spec_alias_message(error: AliasErrorView) -> Seq<char> {
    match error {
        AliasErrorView::Taken(alias) => "Alias "@ + alias + " has already been set"@,
        AliasErrorView::UnknownLight(name) => "Invalid light name: "@ + name,
    }
}

impl AliasError {
    /// The line that tells the operator why the alias was not set.
    pub fn message(&self) -> (line: String)
        ensures
            line@ == spec_alias_message(self@),
    {
        match self {
            AliasError::Taken(alias) => {
                let mut line = String::from_str("Alias ");
                line.append(alias.as_str());
                line.append(" has already been set");
                line
            },
            AliasError::UnknownLight(name) => {
                let mut line = String::from_str("Invalid light name: ");
                line.append(name.as_str());
                line
            },
        }
    }
}

/// What setting an alias leaves in the configuration. An alias in use is
/// refused, whatever it is to stand for; so is a name that no light of the
/// inventory has. Otherwise the alias joins the table and nothing else
/// changes.
pub open spec fn spec_set_alias(
    name: Seq<char>,
    alias: Seq<char>,
    config: ConfigView,
    lights: Seq<LightView>,
) -> Result<ConfigView, AliasErrorView> {
    if config.aliases.contains_key(alias) {
        Err(AliasErrorView::Taken(alias))
    } else if spec_position(lights, name) is None {
        Err(AliasErrorView::UnknownLight(name))
    } else {
        Ok(
            ConfigView {
                url: config.url,
                username: config.username,
                aliases: config.aliases.insert(alias, name),
            },
        )
    }
}

/// The first step of setting an alias: the request for the inventory, or
/// the refusal of an alias that is in use, for which nothing is sent.
pub fn alias_request(alias: &str, config: &Config) -> (result: Result<Request, AliasError>)
    ensures
        match result {
            Ok(request) => !config@.aliases.contains_key(alias@) && request@
                == spec_lights_request(config@),
            Err(error) => config@.aliases.contains_key(alias@) && error@ == AliasErrorView::Taken(
                alias@,
            ),
        },
{
    if config.aliases.contains_key(alias) {
        Err(AliasError::Taken(alias.to_owned()))
    } else {
        Ok(lights_request(config))
    }
}

/// Makes `alias` stand for the light called `name`, given the lights of the
/// bridge: the configuration to store, or why there is none.
pub fn set_alias(name: &str, alias: &str, config: &Config, lights: &Vec<Light>) -> (result: Result<
    Config,
    AliasError,
>)
    ensures
        match result {
            Ok(changed) => spec_set_alias(name@, alias@, config@, light_views(lights@)) == Ok::<
                ConfigView,
                AliasErrorView,
            >(changed@),
            Err(error) => spec_set_alias(name@, alias@, config@, light_views(lights@)) == Err::<
                ConfigView,
                AliasErrorView,
            >(error@),
        },
{
    if config.aliases.contains_key(alias) {
        return Err(AliasError::Taken(alias.to_owned()));
    }
    if find_light(lights, name).is_none() {
        return Err(AliasError::UnknownLight(name.to_owned()));
    }
    let mut aliases = config.aliases.clone();
    aliases.insert(alias.to_owned(), name.to_owned());
    Ok(Config { url: config.url.clone(), username: config.username.clone(), aliases })
}

/// An alias is set exactly where it is not in use and the name is that of a
/// light of the inventory. Where it is not set, there is no configuration to
/// store; where it is, only the table of aliases differs, and only at this
/// alias.
pub proof fn lemma_set_alias_changes_one_alias(
    name: Seq<char>,
    alias: Seq<char>,
    config: ConfigView,
    lights: Seq<LightView>,
)
    ensures
        spec_set_alias(name, alias, config, lights) is Ok <==> !config.aliases.contains_key(alias)
            && exists|i: int| 0 <= i < lights.len() && (#[trigger] lights[i]).name == name,
        match spec_set_alias(name, alias, config, lights) {
            Ok(changed) => {
                &&& changed.url == config.url
                &&& changed.username == config.username
                &&& changed.aliases.contains_key(alias) && changed.aliases[alias] == name
                &&& forall|other: Seq<char>|
                    other != alias ==> (#[trigger] changed.aliases.contains_key(other)
                        <==> config.aliases.contains_key(other))
                &&& forall|other: Seq<char>|
                    other != alias && config.aliases.contains_key(other)
                        ==> #[trigger] changed.aliases[other] == config.aliases[other]
            },
            Err(_) => true,
        },
{
    crate::inventory::lemma_position_is_first(lights, name);
    if spec_position(lights, name) is Some {
        let at = spec_position(lights, name)->Some_0 as int;
        assert(lights[at].name == name);
    }
}

/// Once an alias has been set, it resolves to the name it was set for, and
/// every other name resolves as before.
pub proof fn lemma_alias_resolves(
    name: Seq<char>,
    alias: Seq<char>,
    config: ConfigView,
    lights: Seq<LightView>,
    other: Seq<char>,
)
    requires
        spec_set_alias(name, alias, config, lights) is Ok,
    ensures
        spec_resolve(alias, spec_set_alias(name, alias, config, lights)->Ok_0.aliases) == name,
        other != alias ==> spec_resolve(
            other,
            spec_set_alias(name, alias, config, lights)->Ok_0.aliases,
        ) == spec_resolve(other, config.aliases),
{
}

} // verus!
