//! The HTTP transport and the OpenAI-compatible client that a gateway client is made of.
//!
//! Both are built by their own crates. What the gateway puts into them is named here (the
//! headers a transport sends with every request, the base URL and bearer key of a
//! configuration and of a client), and the calls that build them say how they change it.
use vstd::prelude::*;
use vstd::string::StringSliceAdditionalSpecFns;
use async_openai::config::OpenAIConfig;
use reqwest::header::HeaderMap;
use reqwest::{Client as HttpClient, ClientBuilder, Error as HttpError};
use crate::headers::header_entries;

verus! {

#[verifier::external_type_specification]
#[verifier::external_body]
pub struct ExHttpClient(HttpClient);

#[verifier::external_type_specification]
#[verifier::external_body]
pub struct ExClientBuilder(ClientBuilder);

#[verifier::external_type_specification]
#[verifier::external_body]
pub struct ExHttpError(HttpError);

#[verifier::external_type_specification]
#[verifier::external_body]
pub struct ExOpenAIConfig(OpenAIConfig);

/// The OpenAI-compatible client of async-openai, configured for the gateway; the field is the
/// client itself, for use with that crate's full call surface.
///
/// Its type is generic over async-openai's `Config` trait, which bounds it and which Verus
/// cannot read, so Verus cannot be told of the type itself: this struct holds it unseen.
#[verifier::external_body]
pub struct ProviderClient(pub async_openai::Client<OpenAIConfig>);

/// The default headers that a transport builder holds: for each header name (its bytes), the
/// bytes of its values in order.
pub uninterp spec fn builder_headers(b: ClientBuilder) -> Map<Seq<u8>, Seq<Seq<u8>>>;

/// The default headers that a transport sends with every request, as [`builder_headers`].
pub uninterp spec fn transport_headers(c: HttpClient) -> Map<Seq<u8>, Seq<Seq<u8>>>;

/// The base URL that a configuration appends every request path to.
pub uninterp spec fn config_api_base(c: OpenAIConfig) -> Seq<char>;

/// The key that a configuration sends as the bearer credential.
pub uninterp spec fn config_api_key(c: OpenAIConfig) -> Seq<char>;

/// The base URL of the configuration that a provider client sends its requests by.
pub uninterp spec fn provider_api_base(p: ProviderClient) -> Seq<char>;

/// The bearer key of the configuration that a provider client sends its requests by.
pub uninterp spec fn provider_api_key(p: ProviderClient) -> Seq<char>;

/// The default headers of the transport that a provider client sends its requests through.
pub uninterp spec fn provider_headers(p: ProviderClient) -> Map<Seq<u8>, Seq<Seq<u8>>>;

/// The default headers of a new reqwest builder: `accept: */*` alone.
pub open spec fn initial_builder_headers() -> Map<Seq<u8>, Seq<Seq<u8>>> {
    map!["accept".spec_bytes() => seq!["*/*".spec_bytes()]]
}

/// Relies on async-openai's `Client::build`: a client that sends its requests as `config`
/// says (base URL, bearer key) through `http_client`, with async-openai's default backoff.
#[verifier::external_body]
pub(crate) fn assemble_provider(config: OpenAIConfig, http_client: HttpClient) -> (r: ProviderClient)
    ensures
        provider_api_base(r) == config_api_base(config),
        provider_api_key(r) == config_api_key(config),
        provider_headers(r) == transport_headers(http_client),
{
    ProviderClient(async_openai::Client::build(http_client, config, Default::default()))
}

/// Relies on reqwest's `Client::builder` (`ClientBuilder::new`): a builder whose default
/// headers are `accept: */*` alone.
pub assume_specification[ HttpClient::builder ]() -> (r: ClientBuilder)
    ensures
        builder_headers(r) == initial_builder_headers(),
;

/// Relies on reqwest's `ClientBuilder::default_headers`, which inserts each entry of `headers`
/// into the builder's default headers in turn: a name of `headers` now holds its last value
/// alone, and every other name is left as it was. The builder's map must stay far below its
/// maximal size, else an insertion panics.
pub assume_specification[ ClientBuilder::default_headers ](
    builder: ClientBuilder,
    headers: HeaderMap,
) -> (r: ClientBuilder)
    requires
        builder_headers(builder).dom().finite(),
        header_entries(headers).dom().finite(),
        builder_headers(builder).dom().len() + header_entries(headers).dom().len() < 1024,
    ensures
        forall|k: Seq<u8>|
            #![trigger builder_headers(r).contains_key(k)]
            header_entries(headers).contains_key(k) && header_entries(headers)[k].len() > 0
                ==> builder_headers(r).contains_key(k) && builder_headers(r)[k] == seq![
                header_entries(headers)[k].last(),
            ],
        forall|k: Seq<u8>|
            #![trigger builder_headers(r).contains_key(k)]
            !header_entries(headers).contains_key(k) ==> (builder_headers(r).contains_key(k)
                <==> builder_headers(builder).contains_key(k)) && builder_headers(r)[k]
                == builder_headers(builder)[k],
;

/// Relies on reqwest's `ClientBuilder::build`, which fails when the TLS backend or the
/// resolver cannot be initialised (whether it does depends on the machine), and otherwise
/// hands the builder's default headers to the client unchanged.
pub assume_specification[ ClientBuilder::build ](builder: ClientBuilder) -> (r: Result<
    HttpClient,
    HttpError,
>)
    ensures
        r is Ok ==> transport_headers(r->Ok_0) == builder_headers(builder),
;

/// Relies on async-openai's `OpenAIConfig::new`: the configuration of the OpenAI API, whose
/// base URL and key the caller then replaces.
pub assume_specification[ OpenAIConfig::new ]() -> OpenAIConfig;

/// Relies on async-openai's `OpenAIConfig::with_api_base`: the base URL is replaced, the key
/// kept.
#[verifier::external_body]
pub(crate) fn with_api_base(config: OpenAIConfig, api_base: &str) -> (r: OpenAIConfig)
    ensures
        config_api_base(r) == api_base@,
        config_api_key(r) == config_api_key(config),
{
    config.with_api_base(api_base)
}

/// Relies on async-openai's `OpenAIConfig::with_api_key`: the key is replaced, the base URL
/// kept.
#[verifier::external_body]
pub(crate) fn with_api_key(config: OpenAIConfig, api_key: &str) -> (r: OpenAIConfig)
    ensures
        config_api_key(r) == api_key@,
        config_api_base(r) == config_api_base(config),
{
    config.with_api_key(api_key)
}

} // verus!
