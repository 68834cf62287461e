use vstd::prelude::*;
use vstd::string::StringExecFns;
use crate::error::BootstrapError;
use crate::json::{as_flag, as_list, as_text, get_member, json_of, jsons_of, member, Json};
use crate::uri::{parse_uri, uri_parsed, uri_text};

verus! {

/// What one initialize call does about the backend: exactly one of the two.
#[derive(Debug, PartialEq, Eq)]
pub enum ResolvedDecision {
    /// The host names the backend itself; nothing is provisioned.
    ExplicitServer { uri: url::Url, args: Vec<String> },
    /// The backend is provisioned here, with the agent or without.
    ManagedServer { agent_enabled: bool, args: Vec<String> },
}

/// A decision as plain data. A URI stands with its serialization.
pub enum DecisionModel {
    ExplicitServer { uri: Seq<char>, args: Seq<Seq<char>> },
    ManagedServer { agent_enabled: bool, args: Seq<Seq<char>> },
}

impl View for ResolvedDecision {
    type V = DecisionModel;

    open spec fn view(&self) -> DecisionModel {
        match *self {
            ResolvedDecision::ExplicitServer { uri, args } => DecisionModel::ExplicitServer {
                uri: uri_text(uri),
                args: args.deep_view(),
            },
            ResolvedDecision::ManagedServer { agent_enabled, args } => DecisionModel::ManagedServer {
                agent_enabled,
                args: args.deep_view(),
            },
        }
    }
}

/// What a configuration says, before anything is decided: the three values
/// that the host may set.
#[derive(Debug, PartialEq, Eq)]
pub struct Settings {
    /// `lombok`: whether the agent is wanted.
    pub agent_enabled: bool,
    /// The launch arguments: those of `volt.serverArgs`, or the defaults.
    pub args: Vec<String>,
    /// `volt.serverPath`, where it is a string.
    pub server_path: Option<String>,
}

/// Settings as plain data.
pub struct SettingsModel {
    pub agent_enabled: bool,
    pub args: Seq<Seq<char>>,
    pub server_path: Option<Seq<char>>,
}

impl View for Settings {
    type V = SettingsModel;

    open spec fn view(&self) -> SettingsModel {
        SettingsModel {
            agent_enabled: self.agent_enabled,
            args: self.args.deep_view(),
            server_path: match self.server_path {
                Some(path) => Some(path@),
                None => None,
            },
        }
    }
}

/// The text of a JSON string, `None` for every other kind of value.
pub open spec fn text_of(item: Json) -> Option<Seq<char>> {
    match item {
        Json::Text(text) => Some(text),
        _ => None,
    }
}

/// The string-typed elements of a sequence, in order.
pub open spec fn texts_of(items: Seq<Json>) -> Seq<Seq<char>> {
    items.filter_map(|item: Json| text_of(item))
}

/// The agent flag of a configuration: off where `lombok` is absent, the
/// member's value where it is a boolean, and `None` where it is anything else.
pub open spec fn agent_flag(config: Json) -> Option<bool> {
    match member(config, "lombok"@) {
        None => Some(false),
        Some(Json::Bool(flag)) => Some(flag),
        Some(_) => None,
    }
}

/// The launch arguments of a configuration. A non-empty `volt.serverArgs`
/// array replaces the defaults by its string-typed elements; in every other
/// case the defaults stand.
pub open spec fn configured_args(config: Json, defaults: Seq<Seq<char>>) -> Seq<Seq<char>> {
    match member(config, "volt"@) {
        Some(volt) => match member(volt, "serverArgs"@) {
            Some(Json::List(items)) => if items.len() > 0 {
                texts_of(items)
            } else {
                defaults
            },
            _ => defaults,
        },
        None => defaults,
    }
}

/// `volt.serverPath`, where it is a string.
pub open spec fn configured_path(config: Json) -> Option<Seq<char>> {
    match member(config, "volt"@) {
        Some(volt) => match member(volt, "serverPath"@) {
            Some(Json::Text(path)) => Some(path),
            _ => None,
        },
        None => None,
    }
}

/// What a configuration says, or `None` where `lombok` is malformed.
pub open spec fn settings_of(config: Json, defaults: Seq<Seq<char>>) -> Option<SettingsModel> {
    match agent_flag(config) {
        Some(flag) => Some(
            SettingsModel {
                agent_enabled: flag,
                args: configured_args(config, defaults),
                server_path: configured_path(config),
            },
        ),
        None => None,
    }
}

/// The URI that stands for an explicit server path.
pub open spec fn server_uri_text(path: Seq<char>) -> Seq<char> {
    "urn:"@ + path
}

/// The decision that settings call for. A non-empty server path makes the
/// server explicit, whatever the agent flag says; it is a configuration error
/// where the path gives no URI. Without a path, or with an empty one, the
/// server is managed.
pub open spec fn decision_of(settings: SettingsModel) -> Result<DecisionModel, BootstrapError> {
    match settings.server_path {
        Some(path) if path.len() > 0 => match uri_parsed(server_uri_text(path)) {
            Some(uri) => Ok(DecisionModel::ExplicitServer { uri, args: settings.args }),
            None => Err(BootstrapError::ConfigError),
        },
        _ => Ok(
            DecisionModel::ManagedServer {
                agent_enabled: settings.agent_enabled,
                args: settings.args,
            },
        ),
    }
}

/// The decision that a configuration calls for.
pub open spec fn resolution_of(config: Json, defaults: Seq<Seq<char>>) -> Result<
    DecisionModel,
    BootstrapError,
> {
    match settings_of(config, defaults) {
        Some(settings) => decision_of(settings),
        None => Err(BootstrapError::ConfigError),
    }
}

/// The launch arguments that stand where the host configures none.
pub fn default_args() -> (args: Vec<String>)
    ensures
        args@.len() == 0,
{
    Vec::new()
}

/// Collects the string-typed elements of a JSON array, in order. Elements of
/// another kind are passed over.
fn collect_texts(items: &Vec<serde_json::Value>) -> (texts: Vec<String>)
    ensures
        texts.deep_view() == texts_of(jsons_of(items@)),
{
    let mut texts: Vec<String> = Vec::new();
    let mut index: usize = 0;
    while index < items.len()
        invariant
            index <= items.len(),
            texts.deep_view() == texts_of(jsons_of(items@).take(index as int)),
        decreases items.len() - index,
    {
        let ghost before = texts.deep_view();
        proof {
            jsons_of(items@).lemma_filter_map_take_succ(|item: Json| text_of(item), index as int);
        }
        match as_text(&items[index]) {
            Some(text) => {
                texts.push(text.to_owned());
                assert(texts.deep_view() =~= before.push(text@));
            },
            None => {},
        }
        index = index + 1;
    }
    assert(jsons_of(items@).take(items.len() as int) =~= jsons_of(items@));
    texts
}

/// Reads the three settings out of a configuration. A `lombok` member that is
/// no boolean is a configuration error, and the only one.
pub fn read_settings(config: &serde_json::Value, defaults: Vec<String>) -> (outcome: Result<
    Settings,
    BootstrapError,
>)
    ensures
        match outcome {
            Ok(settings) => settings_of(json_of(*config), defaults.deep_view()) == Some(
                settings@,
            ),
            Err(error) => error == BootstrapError::ConfigError && settings_of(
                json_of(*config),
                defaults.deep_view(),
            ) is None,
        },
{
    let mut agent_enabled = false;
    match get_member(config, "lombok") {
        Some(flag) => match as_flag(flag) {
            Ok(value) => {
                agent_enabled = value;
            },
            Err(_) => {
                return Err(BootstrapError::ConfigError);
            },
        },
        None => {},
    }
    let mut args = defaults;
    let mut server_path: Option<String> = None;
    match get_member(config, "volt") {
        Some(volt) => {
            match get_member(volt, "serverArgs") {
                Some(list) => match as_list(list) {
                    Some(items) => {
                        if items.len() > 0 {
                            args = collect_texts(items);
                        }
                    },
                    None => {},
                },
                None => {},
            }
            match get_member(volt, "serverPath") {
                Some(path) => match as_text(path) {
                    Some(text) => {
                        server_path = Some(text.to_owned());
                    },
                    None => {},
                },
                None => {},
            }
        },
        None => {},
    }
    Ok(Settings { agent_enabled, args, server_path })
}

/// Decides between an explicit and a managed server.
pub fn decide(settings: Settings) -> (outcome: Result<ResolvedDecision, BootstrapError>)
    ensures
        match outcome {
            Ok(decision) => decision_of(settings@) == Ok::<DecisionModel, BootstrapError>(
                decision@,
            ),
            Err(error) => decision_of(settings@) == Err::<DecisionModel, BootstrapError>(error),
        },
{
    let Settings { agent_enabled, args, server_path } = settings;
    match server_path {
        Some(path) => {
            if path.as_str().unicode_len() > 0 {
                let text = String::from_str("urn:").concat(path.as_str());
                match parse_uri(text.as_str()) {
                    Ok(uri) => Ok(ResolvedDecision::ExplicitServer { uri, args }),
                    Err(_) => Err(BootstrapError::ConfigError),
                }
            } else {
                Ok(ResolvedDecision::ManagedServer { agent_enabled, args })
            }
        },
        None => Ok(ResolvedDecision::ManagedServer { agent_enabled, args }),
    }
}

/// The decision for what the host handed over, which may be nothing at all:
/// then the server is managed, without the agent and with the defaults.
pub open spec fn resolution_of_options(options: Option<Json>, defaults: Seq<Seq<char>>) -> Result<
    DecisionModel,
    BootstrapError,
> {
    match options {
        Some(config) => resolution_of(config, defaults),
        None => Ok(DecisionModel::ManagedServer { agent_enabled: false, args: defaults }),
    }
}

/// What the host handed over, as a document.
pub open spec fn options_json(options: Option<&serde_json::Value>) -> Option<Json> {
    match options {
        Some(config) => Some(json_of(*config)),
        None => None,
    }
}

/// Resolves the host's configuration against given default arguments.
pub fn resolve_with_defaults(options: Option<&serde_json::Value>, defaults: Vec<String>) -> (outcome:
    Result<ResolvedDecision, BootstrapError>)
    ensures
        match outcome {
            Ok(decision) => resolution_of_options(options_json(options), defaults.deep_view())
                == Ok::<DecisionModel, BootstrapError>(decision@),
            Err(error) => resolution_of_options(options_json(options), defaults.deep_view())
                == Err::<DecisionModel, BootstrapError>(error),
        },
{
    match options {
        Some(config) => match read_settings(config, defaults) {
            Ok(settings) => decide(settings),
            Err(error) => Err(error),
        },
        None => Ok(ResolvedDecision::ManagedServer { agent_enabled: false, args: defaults }),
    }
}

/// Resolves the host's configuration into a decision.
pub fn resolve(options: Option<&serde_json::Value>) -> (outcome: Result<
    ResolvedDecision,
    BootstrapError,
>)
    ensures
        match outcome {
            Ok(decision) => resolution_of_options(options_json(options), Seq::empty()) == Ok::<
                DecisionModel,
                BootstrapError,
            >(decision@),
            Err(error) => resolution_of_options(options_json(options), Seq::empty()) == Err::<
                DecisionModel,
                BootstrapError,
            >(error),
        },
{
    let defaults = default_args();
    assert(defaults.deep_view() =~= Seq::<Seq<char>>::empty());
    resolve_with_defaults(options, defaults)
}

impl DecisionModel {
    /// The launch arguments that the decision carries.
    pub open spec fn args(self) -> Seq<Seq<char>> {
        match self {
            DecisionModel::ExplicitServer { args, .. } => args,
            DecisionModel::ManagedServer { args, .. } => args,
        }
    }
}

/// A configuration with a non-empty `volt.serverPath` never gives a managed
/// server, whatever `lombok` and `volt.serverArgs` hold. It gives an explicit
/// server, with the URI of that path, unless `lombok` is malformed or the path
/// gives no URI: those two are configuration errors.
pub proof fn lemma_server_path_makes_explicit(config: Json, defaults: Seq<Seq<char>>)
    requires
        configured_path(config) is Some,
        configured_path(config).unwrap().len() > 0,
    ensures
        !(resolution_of(config, defaults) matches Ok(DecisionModel::ManagedServer { .. })),
        resolution_of(config, defaults) is Ok <==> agent_flag(config) is Some && uri_parsed(
            server_uri_text(configured_path(config).unwrap()),
        ) is Some,
        resolution_of(config, defaults) is Ok ==> resolution_of(config, defaults) == Ok::<
            DecisionModel,
            BootstrapError,
        >(
            DecisionModel::ExplicitServer {
                uri: uri_parsed(server_uri_text(configured_path(config).unwrap())).unwrap(),
                args: configured_args(config, defaults),
            },
        ),
        resolution_of(config, defaults) is Err ==> resolution_of(config, defaults) == Err::<
            DecisionModel,
            BootstrapError,
        >(BootstrapError::ConfigError),
{
}

/// A non-empty `volt.serverArgs` array replaces the defaults: the resolved
/// arguments are exactly its string-typed elements, in order, whichever
/// decision is made.
pub proof fn lemma_server_args_replace_defaults(
    config: Json,
    defaults: Seq<Seq<char>>,
    items: Seq<Json>,
)
    requires
        member(config, "volt"@) is Some,
        member(member(config, "volt"@).unwrap(), "serverArgs"@) == Some(Json::List(items)),
        items.len() > 0,
    ensures
        configured_args(config, defaults) == texts_of(items),
        resolution_of(config, defaults) is Ok ==> resolution_of(config, defaults).unwrap().args()
            == texts_of(items),
{
}

/// The string-typed elements of a sequence are taken in order and none is
/// added: with one more element at the end, the texts grow by that element
/// where it is a string and stay as they are where it is not.
pub proof fn lemma_texts_of_push(items: Seq<Json>, item: Json)
    ensures
        texts_of(items.push(item)) == match item {
            Json::Text(text) => texts_of(items).push(text),
            _ => texts_of(items),
        },
        texts_of(Seq::empty()) == Seq::<Seq<char>>::empty(),
{
    let convert = |item: Json| text_of(item);
    let longer = items.push(item);
    longer.lemma_filter_map_take_succ(convert, items.len() as int);
    assert(longer.take(items.len() as int) =~= items);
    assert(longer.take(items.len() as int + 1) =~= longer);
    match item {
        Json::Text(text) => {
            assert(texts_of(items) + seq![text] =~= texts_of(items).push(text));
        },
        _ => {
            assert(texts_of(items) + Seq::<Seq<char>>::empty() =~= texts_of(items));
        },
    }
}

} // verus!
