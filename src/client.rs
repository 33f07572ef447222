//! The gateway client: an OpenAI-compatible client routed through the Portkey gateway.
use vstd::prelude::*;
use vstd::utf8::{
    encode_utf8, encode_utf8_decode_utf8, is_ascii_chars, is_ascii_chars_encode_utf8,
};
use vstd::string::StringSliceAdditionalSpecFns;
use async_openai::config::OpenAIConfig;
use reqwest::{Client as HttpClient, Error as HttpError};
use crate::error::ClientError;
use crate::headers::{
    header_entries, valid_header_value, virtual_key_headers, VIRTUAL_KEY_HEADER,
};
use crate::provider::{
    assemble_provider, builder_headers, initial_builder_headers, provider_api_base, provider_api_key,
    provider_headers, transport_headers, with_api_base, with_api_key, ProviderClient,
};

verus! {

/// Base URL of the gateway's OpenAI-compatible API.
pub const BASE_URL: &'static str = "https://api.portkey.ai/v1";

/// What a [`Client`] sends its requests with.
pub struct ClientView {
    /// The base URL of the provider client's configuration, which every request path is
    /// appended to.
    pub base_url: Seq<char>,
    /// The bearer key of the provider client's configuration.
    pub api_key: Seq<char>,
    /// The virtual key that the client was built for.
    pub virtual_key: Seq<char>,
    /// The default headers of the provider client's transport, sent with every request.
    pub headers: Map<Seq<u8>, Seq<Seq<u8>>>,
}

/// The default headers of a gateway transport for `virtual_key` (given as bytes): reqwest's
/// `accept: */*`, and the routing header with that one value.
pub open spec fn gateway_headers(virtual_key: Seq<u8>) -> Map<Seq<u8>, Seq<Seq<u8>>> {
    initial_builder_headers().insert(VIRTUAL_KEY_HEADER.spec_bytes(), seq![virtual_key])
}

/// What a gateway client built from `api_key` and `virtual_key` sends its requests with: the
/// gateway's base URL, the API key as bearer credential, and the gateway headers of the
/// virtual key. The headers come from the virtual key alone, the credential from the API key
/// alone.
pub open spec fn gateway_config(api_key: Seq<char>, virtual_key: Seq<char>) -> ClientView {
    ClientView {
        base_url: BASE_URL@,
        api_key,
        virtual_key,
        headers: gateway_headers(encode_utf8(virtual_key)),
    }
}

/// A client of the Portkey gateway.
///
/// It wraps an async-openai client whose requests go to the gateway's base URL, carry the
/// gateway API key as bearer credential, and go through an HTTP transport that adds the
/// routing header `x-portkey-virtual-key` to each of them. The base URL and both keys are also
/// kept, for inspection.
pub struct Client {
    openai: ProviderClient,
    base_url: String,
    virtual_key: String,
    api_key: String,
}

impl View for Client {
    type V = ClientView;

    closed spec fn view(&self) -> ClientView {
        ClientView {
            base_url: provider_api_base(self.openai),
            api_key: provider_api_key(self.openai),
            virtual_key: self.virtual_key@,
            headers: provider_headers(self.openai),
        }
    }
}

impl Client {
    /// The kept copies agree with the provider client, whose transport sends the routing
    /// header of the kept virtual key.
    #[verifier::type_invariant]
    spec fn well_formed(&self) -> bool {
        &&& self.base_url@ == provider_api_base(self.openai)
        &&& self.api_key@ == provider_api_key(self.openai)
        &&& provider_headers(self.openai).contains_key(VIRTUAL_KEY_HEADER.spec_bytes())
        &&& provider_headers(self.openai)[VIRTUAL_KEY_HEADER.spec_bytes()] == seq![
            encode_utf8(self.virtual_key@),
        ]
    }

    /// The async-openai client held inside.
    pub closed spec fn provider(&self) -> ProviderClient {
        self.openai
    }

    /// Builds a client of the gateway from its API key and a virtual key.
    ///
    /// Fails with `HeaderEncoding` exactly when the virtual key holds a byte that may not stand
    /// in an HTTP header value, and with `TransportInit` when the HTTP transport cannot be
    /// initialised. On success the provider client is configured as [`gateway_config`] says.
    pub fn new(api_key: &str, virtual_key: &str) -> (r: Result<Client, ClientError>)
        ensures
            r == Err::<Client, ClientError>(ClientError::HeaderEncoding) <==> !valid_header_value(
                virtual_key.spec_bytes(),
            ),
            r is Ok ==> r->Ok_0@ == gateway_config(api_key@, virtual_key@),
            r is Ok ==> provider_api_base(r->Ok_0.provider()) == BASE_URL@,
            r is Ok ==> provider_api_key(r->Ok_0.provider()) == api_key@,
            r is Ok ==> provider_headers(r->Ok_0.provider()) == gateway_headers(
                virtual_key.spec_bytes(),
            ),
    {
        let headers = match virtual_key_headers(virtual_key) {
            Ok(h) => h,
            Err(e) => return Err(e),
        };
        let ghost vk_bytes = virtual_key.spec_bytes();
        let ghost sent = header_entries(headers);
        let builder = HttpClient::builder();
        let ghost initial = builder_headers(builder);
        let builder = builder.default_headers(headers);
        proof {
            lemma_header_names_distinct();
            let name = VIRTUAL_KEY_HEADER.spec_bytes();
            assert(sent.contains_key(name) && sent[name] == seq![vk_bytes]);
            let expected = gateway_headers(vk_bytes);
            assert(initial.contains_key("accept".spec_bytes()));
            assert(sent[name].len() > 0);
            assert(builder_headers(builder).contains_key(name));
            assert(builder_headers(builder)[name] == seq![sent[name].last()]);
            assert forall|k: Seq<u8>| #[trigger] builder_headers(builder).contains_key(k)
                == expected.contains_key(k) by {
                if k != name {
                    assert(!sent.contains_key(k));
                    assert(builder_headers(builder).contains_key(k) == initial.contains_key(k));
                }
            }
            assert forall|k: Seq<u8>| #[trigger]
                expected.contains_key(k) implies builder_headers(builder)[k] == expected[k] by {
                if k != name {
                    assert(!sent.contains_key(k));
                    assert(builder_headers(builder).contains_key(k));
                    assert(builder_headers(builder)[k] == initial[k]);
                } else {
                    assert(seq![seq![vk_bytes].last()] =~= seq![vk_bytes]);
                }
            }
            assert(builder_headers(builder) =~= gateway_headers(vk_bytes));
        }
        let transport = builder.build();
        Self::with_transport(api_key, virtual_key, transport)
    }

    /// Finishes a client around the outcome of building its HTTP transport, which was given
    /// the gateway headers of `virtual_key`: `TransportInit` if that failed, else the client.
    fn with_transport(
        api_key: &str,
        virtual_key: &str,
        transport: Result<HttpClient, HttpError>,
    ) -> (r: Result<Client, ClientError>)
        requires
            transport is Ok ==> transport_headers(transport->Ok_0) == gateway_headers(
                virtual_key.spec_bytes(),
            ),
        ensures
            r is Ok <==> transport is Ok,
            r is Err ==> r->Err_0 == ClientError::TransportInit,
            r is Ok ==> r->Ok_0@ == gateway_config(api_key@, virtual_key@),
            r is Ok ==> provider_headers(r->Ok_0.provider()) == transport_headers(
                transport->Ok_0,
            ),
    {
        let http_client = match transport {
            Ok(c) => c,
            Err(_) => return Err(ClientError::TransportInit),
        };
        let config = with_api_key(with_api_base(OpenAIConfig::new(), BASE_URL), api_key);
        let openai = assemble_provider(config, http_client);
        Ok(Client {
            openai,
            base_url: BASE_URL.to_owned(),
            virtual_key: virtual_key.to_owned(),
            api_key: api_key.to_owned(),
        })
    }

    /// Hands over the async-openai client, for direct use with that crate's full call surface:
    /// it sends its requests with this client's base URL, bearer key and default headers, among
    /// them the routing header of its virtual key. The gateway client is consumed: its base URL
    /// and keys are no longer to be had from it.
    pub fn openai(self) -> (r: ProviderClient)
        ensures
            r == self.provider(),
            provider_api_base(r) == self@.base_url,
            provider_api_key(r) == self@.api_key,
            provider_headers(r) == self@.headers,
            provider_headers(r).contains_key(VIRTUAL_KEY_HEADER.spec_bytes()),
            provider_headers(r)[VIRTUAL_KEY_HEADER.spec_bytes()] == seq![
                encode_utf8(self@.virtual_key),
            ],
    {
        proof {
            use_type_invariant(&self);
        }
        self.openai
    }

    /// The base URL that every request path is appended to.
    pub fn base_url(&self) -> (r: &str)
        ensures
            r@ == self@.base_url,
            r@ == provider_api_base(self.provider()),
    {
        proof {
            use_type_invariant(self);
        }
        self.base_url.as_str()
    }

    /// The virtual key that selects the backend route.
    pub fn virtual_key(&self) -> (r: &str)
        ensures
            r@ == self@.virtual_key,
    {
        self.virtual_key.as_str()
    }

    /// The gateway API key, sent as the bearer credential.
    pub fn api_key(&self) -> (r: &str)
        ensures
            r@ == self@.api_key,
            r@ == provider_api_key(self.provider()),
    {
        proof {
            use_type_invariant(self);
        }
        self.api_key.as_str()
    }
}

/// The two header names that a gateway transport holds differ.
proof fn lemma_header_names_distinct()
    ensures
        "accept".spec_bytes() != VIRTUAL_KEY_HEADER.spec_bytes(),
{
    reveal_strlit("accept");
    reveal_strlit("x-portkey-virtual-key");
    let a = "accept"@;
    let v = VIRTUAL_KEY_HEADER@;
    assert(is_ascii_chars(a));
    assert(is_ascii_chars(v));
    is_ascii_chars_encode_utf8(a);
    is_ascii_chars_encode_utf8(v);
}

/// Whatever the keys, a gateway client sends its requests to the gateway's base URL,
/// `https://api.portkey.ai/v1`.
pub proof fn lemma_base_url_is_gateway(api_key: Seq<char>, virtual_key: Seq<char>)
    ensures
        gateway_config(api_key, virtual_key).base_url == "https://api.portkey.ai/v1"@,
{
}

/// The headers that a gateway client sends with every request are reqwest's `accept: */*` and
/// the routing header, whose value is exactly the virtual key. They are the same whatever the
/// API key, and none of them carries the API key unless it is the virtual key itself or `*/*`.
pub proof fn lemma_headers_from_virtual_key(
    api_key: Seq<char>,
    other_api_key: Seq<char>,
    virtual_key: Seq<char>,
)
    ensures
        ({
            let headers = gateway_config(api_key, virtual_key).headers;
            &&& headers.dom() == set!["accept".spec_bytes(), VIRTUAL_KEY_HEADER.spec_bytes()]
            &&& headers[VIRTUAL_KEY_HEADER.spec_bytes()] == seq![encode_utf8(virtual_key)]
            &&& headers == gateway_config(other_api_key, virtual_key).headers
            &&& api_key != virtual_key && api_key != "*/*"@ ==> forall|name: Seq<u8>| #[trigger]
                headers.contains_key(name) ==> !headers[name].contains(encode_utf8(api_key))
        }),
{
    let headers = gateway_config(api_key, virtual_key).headers;
    let accept = "accept".spec_bytes();
    let name = VIRTUAL_KEY_HEADER.spec_bytes();
    lemma_header_names_distinct();
    assert(headers.dom() =~= set![accept, name]);
    if api_key != virtual_key && api_key != "*/*"@ {
        encode_utf8_decode_utf8(api_key);
        encode_utf8_decode_utf8(virtual_key);
        encode_utf8_decode_utf8("*/*"@);
        assert(encode_utf8(api_key) != encode_utf8(virtual_key));
        assert(encode_utf8(api_key) != "*/*".spec_bytes());
        assert forall|n: Seq<u8>| #[trigger] headers.contains_key(n) implies !headers[
            n
        ].contains(encode_utf8(api_key)) by {
            let values = headers[n];
            let only = if n == name {
                encode_utf8(virtual_key)
            } else {
                "*/*".spec_bytes()
            };
            assert(values == seq![only]);
            if values.contains(encode_utf8(api_key)) {
                let i = choose|i: int| 0 <= i < values.len() && values[i] == encode_utf8(api_key);
                assert(values[i] == only);
            }
        }
    }
}

/// The bearer credential of a gateway client is exactly its API key, the same whatever the
/// virtual key.
pub proof fn lemma_credential_from_api_key(
    api_key: Seq<char>,
    virtual_key: Seq<char>,
    other_virtual_key: Seq<char>,
)
    ensures
        gateway_config(api_key, virtual_key).api_key == api_key,
        gateway_config(api_key, virtual_key).api_key == gateway_config(
            api_key,
            other_virtual_key,
        ).api_key,
{
}

/// Two gateway clients built from the same keys send their requests alike: their provider
/// clients have the same base URL, the same bearer key and the same transport headers.
pub proof fn lemma_same_keys_configured_alike(
    c1: &Client,
    c2: &Client,
    api_key: Seq<char>,
    virtual_key: Seq<char>,
)
    requires
        c1@ == gateway_config(api_key, virtual_key),
        c2@ == gateway_config(api_key, virtual_key),
    ensures
        provider_api_base(c1.provider()) == provider_api_base(c2.provider()),
        provider_api_key(c1.provider()) == provider_api_key(c2.provider()),
        provider_headers(c1.provider()) == provider_headers(c2.provider()),
{
}

} // verus!
