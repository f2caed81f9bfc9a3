//! AI provider settings: the known providers, their endpoints, and the manager that keeps
//! the configured providers by name and which one is active.  Temperatures are kept as
//! the bit patterns of their `f32` values.
use vstd::prelude::*;

use crate::text::{concat, concat3, owned, views};

verus! {

/// A kind of AI service.
#[derive(Clone, Copy, Debug, PartialEq, Eq, Structural)]
pub enum AiProvider {
    OpenAi,
    DeepSeek,
    Ollama,
    ChatGpt,
    Custom,
}

/// The bit pattern of the `f32` value 0.7.
pub const TEMPERATURE_0_7_BITS: u32 = 0x3f33_3333;

/// Which field of a model-list reply names the models.
#[derive(Clone, Copy, Debug, PartialEq, Eq, Structural)]
pub enum ModelListShape {
    /// `{"models": [{"name": ..}, ..]}` (Ollama).
    ModelsByName,
    /// `{"data": [{"id": ..}, ..]}` (OpenAI-compatible services).
    DataById,
}

impl ModelListShape {
    /// The field of the reply that holds the list of models, and the field of each entry
    /// that names a model.
    pub fn fields(&self) -> (r: (&'static str, &'static str))
        ensures
            *self == ModelListShape::ModelsByName ==> r.0@ == "models"@ && r.1@ == "name"@,
            *self == ModelListShape::DataById ==> r.0@ == "data"@ && r.1@ == "id"@,
    {
        match self {
            ModelListShape::ModelsByName => ("models", "name"),
            ModelListShape::DataById => ("data", "id"),
        }
    }
}

/// The names among `entries`, in order: each entry's name field when it is text.
pub open spec fn present_names(entries: Seq<Option<String>>) -> Seq<Seq<char>>
    decreases entries.len(),
{
    if entries.len() == 0 {
        seq![]
    } else {
        present_names(entries.drop_last()) + match entries.last() {
            Some(n) => seq![n@],
            None => seq![],
        }
    }
}

/// The model names of a model-list reply, given for each entry of its list the entry's
/// name field when that is text (entries without one are skipped).
pub fn model_names(entries: Vec<Option<String>>) -> (r: Vec<String>)
    ensures
        views(r@) == present_names(entries@),
{
    let mut r: Vec<String> = Vec::new();
    let mut i: usize = 0;
    while i < entries.len()
        invariant
            i <= entries@.len(),
            views(r@) == present_names(entries@.take(i as int)),
        decreases entries@.len() - i,
    {
        let ghost before = views(r@);
        assert(entries@.take(i + 1).drop_last() =~= entries@.take(i as int));
        match &entries[i] {
            Some(n) => {
                r.push(n.clone());
                assert(views(r@) =~= before + seq![n@]);
            },
            None => {
                assert(views(r@) =~= before + Seq::<Seq<char>>::empty());
            },
        }
        i = i + 1;
    }
    assert(entries@.take(entries@.len() as int) =~= entries@);
    r
}

/// How to ask a provider for its models.
pub struct ModelsRequest {
    pub url: String,
    /// The value of the `Authorization` header, when one is sent.
    pub authorization: Option<String>,
    pub shape: ModelListShape,
}

impl AiProvider {
    /// The provider's name as shown to the user.
    pub open spec fn label(self) -> Seq<char> {
        match self {
            AiProvider::OpenAi => "OpenAI"@,
            AiProvider::DeepSeek => "DeepSeek"@,
            AiProvider::Ollama => "Ollama"@,
            AiProvider::ChatGpt => "ChatGPT"@,
            AiProvider::Custom => "Custom"@,
        }
    }

    /// The provider's name as shown to the user.
    pub fn to_string(&self) -> (s: String)
        ensures
            s@ == self.label(),
    {
        match self {
            AiProvider::OpenAi => owned("OpenAI"),
            AiProvider::DeepSeek => owned("DeepSeek"),
            AiProvider::Ollama => owned("Ollama"),
            AiProvider::ChatGpt => owned("ChatGPT"),
            AiProvider::Custom => owned("Custom"),
        }
    }

    /// The provider's usual API endpoint (none for a custom provider).
    pub open spec fn endpoint(self) -> Seq<char> {
        match self {
            AiProvider::OpenAi => "https://api.openai.com/v1"@,
            AiProvider::DeepSeek => "https://api.deepseek.com/v1"@,
            AiProvider::Ollama => "http://localhost:11434"@,
            AiProvider::ChatGpt => "https://api.openai.com/v1"@,
            AiProvider::Custom => ""@,
        }
    }

    /// The provider's usual API endpoint (empty for a custom provider).
    pub fn default_endpoint(&self) -> (s: String)
        ensures
            s@ == self.endpoint(),
    {
        match self {
            AiProvider::OpenAi => owned("https://api.openai.com/v1"),
            AiProvider::DeepSeek => owned("https://api.deepseek.com/v1"),
            AiProvider::Ollama => owned("http://localhost:11434"),
            AiProvider::ChatGpt => owned("https://api.openai.com/v1"),
            AiProvider::Custom => owned(""),
        }
    }

    /// The endpoint the command line uses when none is given: the usual one, and
    /// `http://localhost:8000/v1` for a custom provider.
    pub open spec fn cli_endpoint(self) -> Seq<char> {
        match self {
            AiProvider::Custom => "http://localhost:8000/v1"@,
            _ => self.endpoint(),
        }
    }

    /// The endpoint the command line uses when none is given.
    pub fn cli_default_endpoint(&self) -> (s: String)
        ensures
            s@ == self.cli_endpoint(),
    {
        match self {
            AiProvider::Custom => owned("http://localhost:8000/v1"),
            _ => self.default_endpoint(),
        }
    }

    /// How to ask `config`'s service for its models: Ollama's `/api/tags`, the `/models`
    /// list of OpenAI-compatible services (with the key as a bearer token), and nothing to
    /// ask for a custom provider (which has no models).
    pub fn models_request(&self, config: &AiProviderConfig) -> (r: Option<ModelsRequest>)
        ensures
            match *self {
                AiProvider::Custom => r is None,
                AiProvider::Ollama => r matches Some(q) && q.url@ == config.api_endpoint@
                    + "/api/tags"@ && q.authorization is None && q.shape
                    == ModelListShape::ModelsByName,
                _ => r matches Some(q) && q.url@ == config.api_endpoint@ + "/models"@
                    && (q.authorization matches Some(a) && a@ == "Bearer "@ + config.api_key@)
                    && q.shape == ModelListShape::DataById,
            },
    {
        match self {
            AiProvider::Custom => None,
            AiProvider::Ollama => Some(
                ModelsRequest {
                    url: concat(config.api_endpoint.as_str(), "/api/tags"),
                    authorization: None,
                    shape: ModelListShape::ModelsByName,
                },
            ),
            _ => Some(
                ModelsRequest {
                    url: concat(config.api_endpoint.as_str(), "/models"),
                    authorization: Some(concat("Bearer ", config.api_key.as_str())),
                    shape: ModelListShape::DataById,
                },
            ),
        }
    }
}

/// Why an AI settings request failed, as plain values.
pub enum AiFault {
    EmptyEndpoint,
    ProviderNotFound { name: Seq<char> },
    UnknownProviderType { name: Seq<char> },
}

/// Why an AI settings request failed.
pub enum AiConfigError {
    /// A provider's endpoint is empty.
    EmptyEndpoint,
    /// No provider of that name is configured.
    ProviderNotFound { name: String },
    /// The provider type named on the command line is not known.
    UnknownProviderType { name: String },
}

impl View for AiConfigError {
    type V = AiFault;

    open spec fn view(&self) -> AiFault {
        match self {
            AiConfigError::EmptyEndpoint => AiFault::EmptyEndpoint,
            AiConfigError::ProviderNotFound { name } => AiFault::ProviderNotFound { name: name@ },
            AiConfigError::UnknownProviderType { name } => AiFault::UnknownProviderType {
                name: name@,
            },
        }
    }
}

/// The text of a failure as shown to the user.
pub open spec fn ai_message(e: AiFault) -> Seq<char> {
    match e {
        AiFault::EmptyEndpoint => "API 端点不能为空"@,
        AiFault::ProviderNotFound { name } => "Provider '"@ + name + "' 不存在"@,
        AiFault::UnknownProviderType { name } => "未知的 Provider 类型: "@ + name
            + ". 支持的类型: openai, deepseek, ollama, chatgpt, custom"@,
    }
}

impl AiConfigError {
    /// The failure's text as shown to the user.
    pub fn message(&self) -> (m: String)
        ensures
            m@ == ai_message(self@),
    {
        match self {
            AiConfigError::EmptyEndpoint => owned("API 端点不能为空"),
            AiConfigError::ProviderNotFound { name } => concat3(
                "Provider '",
                name.as_str(),
                "' 不存在",
            ),
            AiConfigError::UnknownProviderType { name } => concat3(
                "未知的 Provider 类型: ",
                name.as_str(),
                ". 支持的类型: openai, deepseek, ollama, chatgpt, custom",
            ),
        }
    }
}

/// A provider's settings, as plain values.
pub struct ProviderView {
    pub name: Seq<char>,
    pub provider: AiProvider,
    pub api_endpoint: Seq<char>,
    pub api_key: Seq<char>,
    pub default_model: Option<Seq<char>>,
    pub enabled: bool,
    pub timeout_secs: u64,
    pub max_tokens: Option<u32>,
    pub temperature_bits: Option<u32>,
    pub custom_headers: Seq<(Seq<char>, Seq<char>)>,
}

/// A provider's settings.
pub struct AiProviderConfig {
    pub name: String,
    pub provider: AiProvider,
    pub api_endpoint: String,
    pub api_key: String,
    pub default_model: Option<String>,
    pub enabled: bool,
    pub timeout_secs: u64,
    pub max_tokens: Option<u32>,
    /// The bit pattern of the `f32` temperature.
    pub temperature_bits: Option<u32>,
    pub custom_headers: Vec<(String, String)>,
}

impl View for AiProviderConfig {
    type V = ProviderView;

    open spec fn view(&self) -> ProviderView {
        ProviderView {
            name: self.name@,
            provider: self.provider,
            api_endpoint: self.api_endpoint@,
            api_key: self.api_key@,
            default_model: match self.default_model {
                Some(m) => Some(m@),
                None => None,
            },
            enabled: self.enabled,
            timeout_secs: self.timeout_secs,
            max_tokens: self.max_tokens,
            temperature_bits: self.temperature_bits,
            custom_headers: crate::monitor::pair_views(self.custom_headers@),
        }
    }
}

impl Clone for AiProviderConfig {
    fn clone(&self) -> (r: Self)
        ensures
            r@ == self@,
    {
        AiProviderConfig {
            name: self.name.clone(),
            provider: self.provider,
            api_endpoint: self.api_endpoint.clone(),
            api_key: self.api_key.clone(),
            default_model: match &self.default_model {
                Some(m) => Some(m.clone()),
                None => None,
            },
            enabled: self.enabled,
            timeout_secs: self.timeout_secs,
            max_tokens: self.max_tokens,
            temperature_bits: self.temperature_bits,
            custom_headers: crate::monitor::clone_pairs(&self.custom_headers),
        }
    }
}

/// The settings the command line adds: the given endpoint or the command line's default
/// one, the given key and model, enabled, 30 s timeout, at most 4096 tokens, temperature
/// 0.7, no extra headers.
pub open spec fn cli_provider(
    name: Seq<char>,
    provider: AiProvider,
    api_key: Seq<char>,
    endpoint: Option<Seq<char>>,
    model: Option<Seq<char>>,
) -> ProviderView {
    ProviderView {
        name,
        provider,
        api_endpoint: match endpoint {
            Some(e) => e,
            None => provider.cli_endpoint(),
        },
        api_key,
        default_model: model,
        enabled: true,
        timeout_secs: 30,
        max_tokens: Some(4096),
        temperature_bits: Some(TEMPERATURE_0_7_BITS),
        custom_headers: Seq::empty(),
    }
}

impl AiProviderConfig {
    /// Settings for a provider of kind `provider` called `name`: its usual endpoint, no
    /// key, no default model, enabled, 30 s timeout, no token limit or temperature, no
    /// extra headers.
    pub fn new(name: String, provider: AiProvider) -> (r: AiProviderConfig)
        ensures
            r@ == (ProviderView {
                name: name@,
                provider,
                api_endpoint: provider.endpoint(),
                api_key: Seq::empty(),
                default_model: None,
                enabled: true,
                timeout_secs: 30,
                max_tokens: None,
                temperature_bits: None,
                custom_headers: Seq::empty(),
            }),
    {
        let api_endpoint = provider.default_endpoint();
        let r = AiProviderConfig {
            name,
            provider,
            api_endpoint,
            api_key: String::new(),
            default_model: None,
            enabled: true,
            timeout_secs: 30,
            max_tokens: None,
            temperature_bits: None,
            custom_headers: Vec::new(),
        };
        assert(r@.custom_headers =~= Seq::empty());
        r
    }

    /// Settings added from the command line: the given endpoint or the command line's
    /// default one, the given key and model, enabled, 30 s timeout, at most 4096 tokens,
    /// temperature 0.7, no extra headers.
    pub fn from_cli(
        name: String,
        provider: AiProvider,
        api_key: String,
        endpoint: Option<String>,
        model: Option<String>,
    ) -> (r: AiProviderConfig)
        ensures
            r@ == cli_provider(
                name@,
                provider,
                api_key@,
                match endpoint {
                    Some(e) => Some(e@),
                    None => None,
                },
                match model {
                    Some(m) => Some(m@),
                    None => None,
                },
            ),
    {
        let api_endpoint = match endpoint {
            Some(e) => e,
            None => provider.cli_default_endpoint(),
        };
        let r = AiProviderConfig {
            name,
            provider,
            api_endpoint,
            api_key,
            default_model: model,
            enabled: true,
            timeout_secs: 30,
            max_tokens: Some(4096),
            temperature_bits: Some(TEMPERATURE_0_7_BITS),
            custom_headers: Vec::new(),
        };
        assert(r@.custom_headers =~= Seq::empty());
        r
    }

    /// The settings with `key` as the API key.
    pub fn with_api_key(self, key: String) -> (r: AiProviderConfig)
        ensures
            r@ == (ProviderView { api_key: key@, ..self@ }),
    {
        let mut r = self;
        r.api_key = key;
        r
    }

    /// The settings with `endpoint` as the API endpoint.
    pub fn with_endpoint(self, endpoint: String) -> (r: AiProviderConfig)
        ensures
            r@ == (ProviderView { api_endpoint: endpoint@, ..self@ }),
    {
        let mut r = self;
        r.api_endpoint = endpoint;
        r
    }

    /// The settings with `model` as the default model.
    pub fn with_default_model(self, model: String) -> (r: AiProviderConfig)
        ensures
            r@ == (ProviderView { default_model: Some(model@), ..self@ }),
    {
        let mut r = self;
        r.default_model = Some(model);
        r
    }

    /// Settings are valid when the endpoint is not empty.
    pub fn validate(&self) -> (r: Result<(), AiConfigError>)
        ensures
            r is Ok <==> self.api_endpoint@.len() > 0,
            r matches Err(e) ==> e@ == AiFault::EmptyEndpoint,
    {
        if self.api_endpoint.as_str().is_empty() {
            Err(AiConfigError::EmptyEndpoint)
        } else {
            Ok(())
        }
    }
}

/// Settings for all providers.
pub struct AiGlobalSettings {
    pub default_max_tokens: u32,
    /// The bit pattern of the `f32` default temperature.
    pub default_temperature_bits: u32,
    pub request_timeout_secs: u64,
    pub retry_attempts: u32,
    pub enable_streaming: bool,
}

impl Default for AiGlobalSettings {
    fn default() -> (r: Self)
        ensures
            r.default_max_tokens == 2048,
            r.default_temperature_bits == TEMPERATURE_0_7_BITS,
            r.request_timeout_secs == 60,
            r.retry_attempts == 3,
            r.enable_streaming,
    {
        AiGlobalSettings {
            default_max_tokens: 2048,
            default_temperature_bits: TEMPERATURE_0_7_BITS,
            request_timeout_secs: 60,
            retry_attempts: 3,
            enable_streaming: true,
        }
    }
}

impl Clone for AiGlobalSettings {
    fn clone(&self) -> (r: Self)
        ensures
            r == *self,
    {
        AiGlobalSettings {
            default_max_tokens: self.default_max_tokens,
            default_temperature_bits: self.default_temperature_bits,
            request_timeout_secs: self.request_timeout_secs,
            retry_attempts: self.retry_attempts,
            enable_streaming: self.enable_streaming,
        }
    }
}

/// The (name, settings) entries of a manager, as plain values.
pub open spec fn entry_views(v: Seq<(String, AiProviderConfig)>) -> Seq<(Seq<char>, ProviderView)> {
    v.map_values(|e: (String, AiProviderConfig)| (e.0@, e.1@))
}

/// Some entry is named `k`.
pub open spec fn has_key(e: Seq<(Seq<char>, ProviderView)>, k: Seq<char>) -> bool {
    exists|i: int| 0 <= i < e.len() && #[trigger] e[i].0 == k
}

/// The position of an entry named `k`.
pub open spec fn key_index(e: Seq<(Seq<char>, ProviderView)>, k: Seq<char>) -> int {
    choose|i: int| 0 <= i < e.len() && #[trigger] e[i].0 == k
}

/// The entries as a map from name to settings.
pub open spec fn entry_map(e: Seq<(Seq<char>, ProviderView)>) -> Map<Seq<char>, ProviderView> {
    Map::new(|k: Seq<char>| has_key(e, k), |k: Seq<char>| e[key_index(e, k)].1)
}

/// No two entries have the same name.
pub open spec fn keys_distinct(e: Seq<(Seq<char>, ProviderView)>) -> bool {
    forall|i: int, j: int|
        0 <= i < e.len() && 0 <= j < e.len() && i != j ==> #[trigger] e[i].0 != #[trigger] e[j].0
}

/// With distinct names, the entry named like entry `i` is entry `i`.
pub proof fn lemma_key_index(e: Seq<(Seq<char>, ProviderView)>, i: int)
    requires
        keys_distinct(e),
        0 <= i < e.len(),
    ensures
        has_key(e, e[i].0),
        key_index(e, e[i].0) == i,
{
    assert(e[i].0 == e[i].0);
    let j = key_index(e, e[i].0);
    if j != i {
        assert(e[j].0 != e[i].0);
    }
}

/// Appending an entry with a new name adds it to the map.
pub proof fn lemma_map_push(e: Seq<(Seq<char>, ProviderView)>, k: Seq<char>, v: ProviderView)
    requires
        keys_distinct(e),
        !has_key(e, k),
    ensures
        keys_distinct(e.push((k, v))),
        entry_map(e.push((k, v))) == entry_map(e).insert(k, v),
{
    let f = e.push((k, v));
    assert(keys_distinct(f)) by {
        assert forall|i: int, j: int|
            0 <= i < f.len() && 0 <= j < f.len() && i != j implies #[trigger] f[i].0
            != #[trigger] f[j].0 by {
            if i < e.len() && j == e.len() {
                assert(e[i].0 != k);
            }
            if j < e.len() && i == e.len() {
                assert(e[j].0 != k);
            }
        }
    }
    assert forall|x: Seq<char>| has_key(f, x) <==> has_key(e, x) || x == k by {
        if has_key(e, x) {
            let i = key_index(e, x);
            assert(f[i].0 == x);
        }
        if x == k {
            assert(f[e.len() as int].0 == k);
        }
        if has_key(f, x) && x != k {
            let i = key_index(f, x);
            assert(e[i].0 == x);
        }
    }
    assert forall|x: Seq<char>| has_key(f, x) implies entry_map(f)[x] == entry_map(e).insert(
        k,
        v,
    )[x] by {
        if x == k {
            lemma_key_index(f, e.len() as int);
        } else {
            let i = key_index(e, x);
            lemma_key_index(e, i);
            lemma_key_index(f, i);
        }
    }
    assert(entry_map(f) =~= entry_map(e).insert(k, v));
}

/// Replacing the settings of entry `i` replaces them in the map.
pub proof fn lemma_map_update(e: Seq<(Seq<char>, ProviderView)>, i: int, v: ProviderView)
    requires
        keys_distinct(e),
        0 <= i < e.len(),
    ensures
        keys_distinct(e.update(i, (e[i].0, v))),
        entry_map(e.update(i, (e[i].0, v))) == entry_map(e).insert(e[i].0, v),
{
    let k = e[i].0;
    let f = e.update(i, (k, v));
    assert forall|a: int, b: int|
        0 <= a < f.len() && 0 <= b < f.len() && a != b implies #[trigger] f[a].0
        != #[trigger] f[b].0 by {
        assert(f[a].0 == e[a].0);
        assert(f[b].0 == e[b].0);
    }
    assert forall|x: Seq<char>| has_key(f, x) <==> has_key(e, x) by {
        if has_key(e, x) {
            let j = key_index(e, x);
            assert(f[j].0 == x);
        }
        if has_key(f, x) {
            let j = key_index(f, x);
            assert(e[j].0 == x);
        }
    }
    lemma_key_index(e, i);
    assert forall|x: Seq<char>| has_key(f, x) implies entry_map(f)[x] == entry_map(e).insert(
        k,
        v,
    )[x] by {
        let j = key_index(e, x);
        lemma_key_index(e, j);
        lemma_key_index(f, j);
    }
    assert(entry_map(f) =~= entry_map(e).insert(k, v));
}

/// Removing entry `i` removes its name from the map.
pub proof fn lemma_map_remove(e: Seq<(Seq<char>, ProviderView)>, i: int)
    requires
        keys_distinct(e),
        0 <= i < e.len(),
    ensures
        keys_distinct(e.remove(i)),
        entry_map(e.remove(i)) == entry_map(e).remove(e[i].0),
{
    let k = e[i].0;
    let f = e.remove(i);
    let up = |a: int| if a < i { a } else { a + 1 };
    assert forall|a: int, b: int|
        0 <= a < f.len() && 0 <= b < f.len() && a != b implies #[trigger] f[a].0
        != #[trigger] f[b].0 by {
        assert(f[a] == e[up(a)]);
        assert(f[b] == e[up(b)]);
    }
    assert forall|x: Seq<char>| has_key(f, x) <==> has_key(e, x) && x != k by {
        if has_key(f, x) {
            let j = key_index(f, x);
            assert(f[j] == e[up(j)]);
            assert(e[up(j)].0 == x);
            if x == k {
                assert(e[up(j)].0 == e[i].0);
            }
        }
        if has_key(e, x) && x != k {
            let j = key_index(e, x);
            if j < i {
                assert(f[j].0 == x);
            } else {
                assert(j != i);
                assert(f[j - 1].0 == x);
            }
        }
    }
    assert forall|x: Seq<char>| has_key(f, x) implies entry_map(f)[x] == entry_map(e).remove(k)[x] by {
        let j = key_index(f, x);
        lemma_key_index(f, j);
        assert(f[j] == e[up(j)]);
        lemma_key_index(e, up(j));
    }
    assert(entry_map(f) =~= entry_map(e).remove(k));
}

/// The provider manager: configured providers by name, the active one, and settings for
/// all.
pub struct AiConfigManager {
    pub providers: Vec<(String, AiProviderConfig)>,
    pub active_provider: Option<String>,
    pub global_settings: AiGlobalSettings,
}

impl AiConfigManager {
    /// The configured providers, by name.
    pub open spec fn provider_map(&self) -> Map<Seq<char>, ProviderView> {
        entry_map(entry_views(self.providers@))
    }

    /// The name of the active provider, if any.
    pub open spec fn active(&self) -> Option<Seq<char>> {
        match self.active_provider {
            Some(a) => Some(a@),
            None => None,
        }
    }

    /// No two providers are kept under the same name.
    pub open spec fn wf(&self) -> bool {
        keys_distinct(entry_views(self.providers@))
    }

    /// The active provider is a configured one, and there is one whenever any provider is
    /// configured.
    pub open spec fn consistent(&self) -> bool {
        &&& self.active() matches Some(a) ==> self.provider_map().contains_key(a)
        &&& self.provider_map() != Map::<Seq<char>, ProviderView>::empty() ==> self.active() is Some
    }

    /// A manager with no providers, none active, and the default settings for all.
    pub fn new() -> (m: AiConfigManager)
        ensures
            m.wf(),
            m.consistent(),
            m.provider_map() == Map::<Seq<char>, ProviderView>::empty(),
            m.active() is None,
    {
        let m = AiConfigManager {
            providers: Vec::new(),
            active_provider: None,
            global_settings: AiGlobalSettings::default(),
        };
        assert(m.provider_map() =~= Map::<Seq<char>, ProviderView>::empty());
        m
    }

    /// Whether no two providers are kept under the same name.
    pub fn has_unique_names(&self) -> (b: bool)
        ensures
            b == self.wf(),
    {
        let mut i: usize = 0;
        while i < self.providers.len()
            invariant
                i <= self.providers@.len(),
                forall|a: int, b: int|
                    0 <= a < i && 0 <= b < self.providers@.len() && a != b ==> #[trigger] self.providers@[a].0@
                        != #[trigger] self.providers@[b].0@,
            decreases self.providers@.len() - i,
        {
            let mut j: usize = 0;
            while j < self.providers.len()
                invariant
                    i < self.providers@.len(),
                    j <= self.providers@.len(),
                    forall|a: int, b: int|
                        0 <= a < i && 0 <= b < self.providers@.len() && a != b ==> #[trigger] self.providers@[a].0@
                            != #[trigger] self.providers@[b].0@,
                    forall|b: int|
                        0 <= b < j && b != i ==> self.providers@[i as int].0@
                            != #[trigger] self.providers@[b].0@,
                decreases self.providers@.len() - j,
            {
                if j != i && self.providers[i].0 == self.providers[j].0 {
                    assert(entry_views(self.providers@)[i as int].0 == entry_views(
                        self.providers@,
                    )[j as int].0);
                    return false;
                }
                j = j + 1;
            }
            i = i + 1;
        }
        assert forall|a: int, b: int|
            0 <= a < entry_views(self.providers@).len() && 0 <= b < entry_views(
                self.providers@,
            ).len() && a != b implies #[trigger] entry_views(self.providers@)[a].0
            != #[trigger] entry_views(self.providers@)[b].0 by {
            assert(self.providers@[a].0@ != self.providers@[b].0@);
        }
        true
    }

    /// The position of the provider named `name`, if configured.
    fn find(&self, name: &str) -> (r: Option<usize>)
        requires
            self.wf(),
        ensures
            match r {
                Some(i) => i < self.providers@.len() && self.providers@[i as int].0@ == name@
                    && self.provider_map().contains_key(name@),
                None => !self.provider_map().contains_key(name@),
            },
    {
        let mut i: usize = 0;
        while i < self.providers.len()
            invariant
                i <= self.providers@.len(),
                forall|k: int| 0 <= k < i ==> #[trigger] self.providers@[k].0@ != name@,
            decreases self.providers@.len() - i,
        {
            if crate::text::str_eq(self.providers[i].0.as_str(), name) {
                assert(entry_views(self.providers@)[i as int].0 == name@);
                return Some(i);
            }
            i = i + 1;
        }
        assert(!has_key(entry_views(self.providers@), name@)) by {
            if has_key(entry_views(self.providers@), name@) {
                let k = key_index(entry_views(self.providers@), name@);
                assert(self.providers@[k].0@ == name@);
            }
        }
        None
    }

    /// Keeps `config` under `name`, replacing what was kept there.
    fn insert(&mut self, name: String, config: AiProviderConfig)
        requires
            old(self).wf(),
        ensures
            final(self).wf(),
            final(self).provider_map() == old(self).provider_map().insert(name@, config@),
            final(self).active_provider == old(self).active_provider,
            final(self).global_settings == old(self).global_settings,
    {
        let ghost e = entry_views(self.providers@);
        match self.find(name.as_str()) {
            Some(i) => {
                proof {
                    lemma_map_update(e, i as int, config@);
                }
                let ghost cv = config@;
                self.providers.set(i, (name, config));
                assert(entry_views(self.providers@) =~= e.update(i as int, (e[i as int].0, cv)));
            },
            None => {
                proof {
                    lemma_map_push(e, name@, config@);
                }
                let ghost entry = (name@, config@);
                self.providers.push((name, config));
                assert(entry_views(self.providers@) =~= e.push(entry));
            },
        }
    }

    /// Adds `config` under its name (replacing a provider of that name); it becomes the
    /// active provider when none is.  Settings with an empty endpoint are refused.
    pub fn add_provider(&mut self, config: AiProviderConfig) -> (r: Result<(), AiConfigError>)
        requires
            old(self).wf(),
        ensures
            final(self).wf(),
            final(self).global_settings == old(self).global_settings,
            r is Err ==> *final(self) == *old(self),
            r is Ok <==> config@.api_endpoint.len() > 0,
            r matches Err(e) ==> e@ == AiFault::EmptyEndpoint,
            r is Ok ==> final(self).provider_map() == old(self).provider_map().insert(
                config@.name,
                config@,
            ),
            r is Ok ==> final(self).active() == (match old(self).active() {
                Some(a) => Some(a),
                None => Some(config@.name),
            }),
            r is Err ==> final(self).provider_map() == old(self).provider_map() && final(self).active() == old(self).active(),
            old(self).consistent() ==> final(self).consistent(),
    {
        match config.validate() {
            Err(e) => Err(e),
            Ok(()) => {
                let name = config.name.clone();
                let was_none = self.active_provider.is_none();
                let key = name.clone();
                self.insert(key, config);
                if was_none {
                    self.active_provider = Some(name);
                }
                Ok(())
            },
        }
    }

    /// Removes the provider named `name`; when it was the active one, another configured
    /// provider (if any) becomes active.  Refused when no such provider is configured.
    pub fn remove_provider(&mut self, name: &str) -> (r: Result<(), AiConfigError>)
        requires
            old(self).wf(),
        ensures
            final(self).wf(),
            final(self).global_settings == old(self).global_settings,
            r is Err ==> *final(self) == *old(self),
            r is Ok <==> old(self).provider_map().contains_key(name@),
            r matches Err(e) ==> e@ == (AiFault::ProviderNotFound { name: name@ }),
            r is Ok ==> final(self).provider_map() == old(self).provider_map().remove(name@),
            r is Ok && old(self).active() != Some(name@) ==> final(self).active() == old(self).active(),
            r is Ok && old(self).active() == Some(name@) ==> match final(self).active() {
                Some(a) => final(self).provider_map().contains_key(a),
                None => final(self).provider_map() == Map::<Seq<char>, ProviderView>::empty(),
            },
            r is Err ==> final(self).provider_map() == old(self).provider_map() && final(self).active() == old(self).active(),
            old(self).consistent() ==> final(self).consistent(),
    {
        let ghost e = entry_views(self.providers@);
        match self.find(name) {
            None => Err(AiConfigError::ProviderNotFound { name: owned(name) }),
            Some(i) => {
                proof {
                    lemma_map_remove(e, i as int);
                }
                let _ = self.providers.remove(i);
                assert(entry_views(self.providers@) =~= e.remove(i as int));
                let was_active = match &self.active_provider {
                    Some(a) => crate::text::str_eq(a.as_str(), name),
                    None => false,
                };
                if was_active {
                    if self.providers.len() > 0 {
                        let first = self.providers[0].0.clone();
                        assert(has_key(entry_views(self.providers@), first@)) by {
                            assert(entry_views(self.providers@)[0].0 == first@);
                        }
                        self.active_provider = Some(first);
                    } else {
                        assert(self.provider_map() =~= Map::<Seq<char>, ProviderView>::empty());
                        self.active_provider = None;
                    }
                }
                proof {
                    if self.providers@.len() > 0 {
                        assert(entry_views(self.providers@)[0].0 == self.providers@[0].0@);
                        assert(self.provider_map().contains_key(self.providers@[0].0@));
                        assert(self.provider_map() != Map::<Seq<char>, ProviderView>::empty());
                    } else {
                        assert(self.provider_map() =~= Map::<Seq<char>, ProviderView>::empty());
                    }
                }
                Ok(())
            },
        }
    }

    /// The settings of the provider named `name`, if configured.
    pub fn get_provider(&self, name: &str) -> (r: Option<&AiProviderConfig>)
        requires
            self.wf(),
        ensures
            match r {
                Some(c) => self.provider_map().contains_key(name@) && c@ == self.provider_map()[name@],
                None => !self.provider_map().contains_key(name@),
            },
    {
        match self.find(name) {
            Some(i) => {
                proof {
                    lemma_key_index(entry_views(self.providers@), i as int);
                }
                Some(&self.providers[i].1)
            },
            None => None,
        }
    }

    /// The settings of the active provider, if one is active and configured.
    pub fn get_active_provider(&self) -> (r: Option<&AiProviderConfig>)
        requires
            self.wf(),
        ensures
            match r {
                Some(c) => self.active() matches Some(a) && self.provider_map().contains_key(a)
                    && c@ == self.provider_map()[a],
                None => match self.active() {
                    Some(a) => !self.provider_map().contains_key(a),
                    None => true,
                },
            },
    {
        match &self.active_provider {
            Some(a) => self.get_provider(a.as_str()),
            None => None,
        }
    }

    /// Makes the provider named `name` the active one; refused when it is not
    /// configured.
    pub fn set_active_provider(&mut self, name: &str) -> (r: Result<(), AiConfigError>)
        requires
            old(self).wf(),
        ensures
            final(self).wf(),
            final(self).global_settings == old(self).global_settings,
            r is Err ==> *final(self) == *old(self),
            r is Ok <==> old(self).provider_map().contains_key(name@),
            r matches Err(e) ==> e@ == (AiFault::ProviderNotFound { name: name@ }),
            final(self).provider_map() == old(self).provider_map(),
            r is Ok ==> final(self).active() == Some(name@),
            r is Err ==> final(self).active() == old(self).active(),
            old(self).consistent() ==> final(self).consistent(),
    {
        match self.find(name) {
            None => Err(AiConfigError::ProviderNotFound { name: owned(name) }),
            Some(_) => {
                self.active_provider = Some(owned(name));
                Ok(())
            },
        }
    }

    /// The configured providers, as (name, settings), in the order they were added.
    pub fn list_providers(&self) -> (r: Vec<(&String, &AiProviderConfig)>)
        ensures
            r@.map_values(|e: (&String, &AiProviderConfig)| (e.0@, e.1@)) == entry_views(
                self.providers@,
            ),
    {
        let mut r: Vec<(&String, &AiProviderConfig)> = Vec::new();
        let mut i: usize = 0;
        while i < self.providers.len()
            invariant
                i <= self.providers@.len(),
                r@.map_values(|e: (&String, &AiProviderConfig)| (e.0@, e.1@)) == entry_views(
                    self.providers@,
                ).take(i as int),
            decreases self.providers@.len() - i,
        {
            let ghost before = r@;
            r.push((&self.providers[i].0, &self.providers[i].1));
            assert(r@.map_values(|e: (&String, &AiProviderConfig)| (e.0@, e.1@)) == before.map_values(
                |e: (&String, &AiProviderConfig)| (e.0@, e.1@),
            ).push(entry_views(self.providers@)[i as int]));
            assert(entry_views(self.providers@).take(i + 1) == entry_views(self.providers@).take(
                i as int,
            ).push(entry_views(self.providers@)[i as int]));
            i = i + 1;
        }
        assert(entry_views(self.providers@).take(self.providers@.len() as int) == entry_views(
            self.providers@,
        ));
        r
    }

    /// Replaces the settings of the provider named `name` with `config` (kept under
    /// `name`); refused when no such provider is configured, or when `config` has an empty
    /// endpoint.
    pub fn update_provider(&mut self, name: &str, config: AiProviderConfig) -> (r: Result<
        (),
        AiConfigError,
    >)
        requires
            old(self).wf(),
        ensures
            final(self).wf(),
            final(self).global_settings == old(self).global_settings,
            r is Err ==> *final(self) == *old(self),
            !old(self).provider_map().contains_key(name@) ==> (r matches Err(e) && e@
                == (AiFault::ProviderNotFound { name: name@ })),
            old(self).provider_map().contains_key(name@) && config@.api_endpoint.len() == 0 ==> (
            r matches Err(e) && e@ == AiFault::EmptyEndpoint),
            r is Ok <==> old(self).provider_map().contains_key(name@)
                && config@.api_endpoint.len() > 0,
            r is Ok ==> final(self).provider_map() == old(self).provider_map().insert(
                name@,
                config@,
            ),
            r is Err ==> final(self).provider_map() == old(self).provider_map(),
            final(self).active() == old(self).active(),
            old(self).consistent() ==> final(self).consistent(),
    {
        match self.find(name) {
            None => Err(AiConfigError::ProviderNotFound { name: owned(name) }),
            Some(_) => match config.validate() {
                Err(e) => Err(e),
                Ok(()) => {
                    self.insert(owned(name), config);
                    Ok(())
                },
            },
        }
    }

    /// The settings the assistant suggests: a local Ollama, OpenAI, DeepSeek and ChatGPT,
    /// each with its usual endpoint.
    pub fn create_default_configs() -> (r: Vec<AiProviderConfig>)
        ensures
            r@.len() == 4,
            r@[0]@.name == "Ollama 本地"@ && r@[0]@.provider == AiProvider::Ollama
                && r@[0]@.api_endpoint == "http://localhost:11434"@,
            r@[1]@.name == "OpenAI"@ && r@[1]@.provider == AiProvider::OpenAi
                && r@[1]@.api_endpoint == AiProvider::OpenAi.endpoint(),
            r@[2]@.name == "DeepSeek"@ && r@[2]@.provider == AiProvider::DeepSeek
                && r@[2]@.api_endpoint == AiProvider::DeepSeek.endpoint(),
            r@[3]@.name == "ChatGPT"@ && r@[3]@.provider == AiProvider::ChatGpt
                && r@[3]@.api_endpoint == AiProvider::ChatGpt.endpoint(),
            forall|i: int|
                0 <= i < 4 ==> (#[trigger] r@[i])@.api_key.len() == 0 && r@[i]@.default_model
                    is None && r@[i]@.enabled && r@[i]@.timeout_secs == 30,
    {
        let mut r: Vec<AiProviderConfig> = Vec::new();
        r.push(
            AiProviderConfig::new(owned("Ollama 本地"), AiProvider::Ollama).with_endpoint(
                owned("http://localhost:11434"),
            ),
        );
        r.push(AiProviderConfig::new(owned("OpenAI"), AiProvider::OpenAi));
        r.push(AiProviderConfig::new(owned("DeepSeek"), AiProvider::DeepSeek));
        r.push(AiProviderConfig::new(owned("ChatGPT"), AiProvider::ChatGpt));
        r
    }

    /// Sets the default model of the provider named `name`; refused when it is not
    /// configured.
    pub fn set_default_model(&mut self, name: &str, model: &str) -> (r: Result<(), AiConfigError>)
        requires
            old(self).wf(),
        ensures
            final(self).wf(),
            final(self).global_settings == old(self).global_settings,
            r is Err ==> *final(self) == *old(self),
            r is Ok <==> old(self).provider_map().contains_key(name@),
            r matches Err(e) ==> e@ == (AiFault::ProviderNotFound { name: name@ }),
            r is Ok ==> final(self).provider_map() == old(self).provider_map().insert(
                name@,
                ProviderView { default_model: Some(model@), ..old(self).provider_map()[name@] },
            ),
            r is Err ==> final(self).provider_map() == old(self).provider_map(),
            final(self).active() == old(self).active(),
            old(self).consistent() ==> final(self).consistent(),
    {
        match self.find(name) {
            None => Err(AiConfigError::ProviderNotFound { name: owned(name) }),
            Some(i) => {
                let ghost e = entry_views(self.providers@);
                proof {
                    lemma_key_index(e, i as int);
                }
                let updated = self.providers[i].1.clone().with_default_model(owned(model));
                let key = self.providers[i].0.clone();
                self.insert(key, updated);
                Ok(())
            },
        }
    }
}

impl Default for AiConfigManager {
    fn default() -> (m: Self)
        ensures
            m.wf(),
            m.provider_map() == Map::<Seq<char>, ProviderView>::empty(),
            m.active() is None,
    {
        Self::new()
    }
}

/// Adding a provider under a new name and then removing it leaves the providers as they
/// were; a provider reads back as it was added.
pub proof fn law_add_then_remove(
    before: Map<Seq<char>, ProviderView>,
    name: Seq<char>,
    config: ProviderView,
)
    requires
        !before.contains_key(name),
    ensures
        before.insert(name, config).contains_key(name),
        before.insert(name, config)[name] == config,
        before.insert(name, config).remove(name) == before,
{
    assert(before.insert(name, config).remove(name) =~= before);
}

/// What the command line's `ai list` shows before a provider's name.
#[derive(Clone, Copy, Debug, PartialEq, Eq, Structural)]
pub enum ProviderMarker {
    Active,
    Enabled,
    Disabled,
}

/// The marker of the provider listed under `name`: active when it is the active provider,
/// else enabled or disabled.
pub fn provider_marker(manager: &AiConfigManager, name: &str, config: &AiProviderConfig) -> (r:
    ProviderMarker)
    requires
        manager.wf(),
    ensures
        r == (if (manager.active() matches Some(a) && manager.provider_map().contains_key(a)
            && manager.provider_map()[a].name == name@) {
            ProviderMarker::Active
        } else if config.enabled {
            ProviderMarker::Enabled
        } else {
            ProviderMarker::Disabled
        }),
{
    let active = match manager.get_active_provider() {
        Some(p) => crate::text::str_eq(p.name.as_str(), name),
        None => false,
    };
    if active {
        ProviderMarker::Active
    } else if config.enabled {
        ProviderMarker::Enabled
    } else {
        ProviderMarker::Disabled
    }
}

} // verus!
