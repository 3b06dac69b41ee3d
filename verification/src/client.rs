//! The client: who is asking, where the server is, and which version the
//! server reported when it was first asked.

use crate::auth::{credential, encode, encode_with, is_salt};
use crate::deserialize::envelope::{decode, decoded, SubsonicResp, SubsonicRespView};
use crate::error::{DecodeError, Error};
use crate::registry::{registry, Operation};
use crate::request::{
    api_mismatch, arg_at, build_query, lemma_newer_argument_is_refused,
    lemma_query_holds_supported_arguments, query, text_view, ArgValue, ArgValueView,
};
use crate::text::{camel_text, push_camel};
use crate::version::{at_least, parse_version, satisfies, version_text, Version};
use crate::xml::xml_tokens;
use vstd::prelude::*;
use vstd::string::*;

verus! {

/// A client of one server. The version is fixed when the client is made and
/// never changes afterwards.
#[derive(Debug)]
pub struct SubsonicClient {
    username: String,
    password: String,
    url: String,
    version: Version,
}

/// A client, as contracts see it.
pub ghost struct ClientView {
    pub username: Seq<char>,
    pub password: Seq<char>,
    pub url: Seq<char>,
    pub version: Version,
}

impl DeepView for SubsonicClient {
    type V = ClientView;

    closed spec fn deep_view(&self) -> ClientView {
        ClientView {
            username: self.username@,
            password: self.password@,
            url: self.url@,
            version: self.version,
        }
    }
}

/// The address that every operation's address starts with.
pub open spec fn endpoint(c: ClientView) -> Seq<char> {
    c.url + "/rest/"@
}

/// The address to ask first, for the server's version.
pub open spec fn ping_address(url: Seq<char>) -> Seq<char> {
    url + "/rest/ping"@
}

/// The part of the query that every operation shares: the user, the
/// protocol version, the format, and the credential.
pub open spec fn shared_query(c: ClientView, auth: Seq<char>) -> Seq<char> {
    "?u="@ + c.username + "&v="@ + version_text(c.version) + "&f=xml&"@ + auth
}

/// The address of a call, or why the call cannot be made. The operation's own
/// version is checked first; then each supplied argument's.
pub open spec fn request(
    c: ClientView,
    op: Operation,
    args: Seq<Option<ArgValueView>>,
    auth: Seq<char>,
) -> Result<Seq<char>, Error> {
    let info = registry(op);
    if !at_least(c.version, info.since) {
        Err(api_mismatch(c.version, info.since))
    } else {
        match query(c.version, info.parameters, args, 0, Seq::empty()) {
            Ok(q) => Ok(endpoint(c) + camel_text(info.name) + shared_query(c, auth) + q),
            Err(e) => Err(e),
        }
    }
}

/// The client that a discovery response gives, or why it gives none.
pub open spec fn connected(
    username: Seq<char>,
    password: Seq<char>,
    url: Seq<char>,
    ping: Result<SubsonicRespView, DecodeError>,
) -> Result<ClientView, Error> {
    match ping {
        Ok(resp) => match parse_version(resp.version) {
            Some(version) => Ok(ClientView { username, password, url, version }),
            None => Err(Error::VersionParse),
        },
        Err(e) => Err(Error::Decode(e)),
    }
}

/// The view of a client that may have been refused.
pub open spec fn client_view(r: Result<SubsonicClient, Error>) -> Result<ClientView, Error> {
    match r {
        Ok(c) => Ok(c.deep_view()),
        Err(e) => Err(e),
    }
}

impl SubsonicClient {
    /// The address to fetch before a client can be made.
    pub fn ping_url(url: &str) -> (r: String)
        ensures
            r@ == ping_address(url@),
    {
        let mut out = String::from_str(url);
        out.append("/rest/ping");
        out
    }

    /// A client of a server whose version is known.
    pub fn with_version(username: String, password: String, url: String, version: Version) -> (r:
        SubsonicClient)
        ensures
            r.deep_view() == (ClientView {
                username: username@,
                password: password@,
                url: url@,
                version,
            }),
    {
        SubsonicClient { username, password, url, version }
    }

    /// A client of the server that sent `ping`.
    pub fn from_ping(username: String, password: String, url: String, ping: &SubsonicResp) -> (r:
        Result<SubsonicClient, Error>)
        ensures
            client_view(r) == connected(username@, password@, url@, Ok(ping.deep_view())),
    {
        match ping.server_version() {
            Some(version) => Ok(SubsonicClient { username, password, url, version }),
            None => Err(Error::VersionParse),
        }
    }

    /// A client of the server that answered the discovery call with the
    /// document `ping_response`.
    pub fn new(username: String, password: String, url: String, ping_response: &str) -> (r: Result<
        SubsonicClient,
        Error,
    >)
        ensures
            client_view(r) == connected(
                username@,
                password@,
                url@,
                decoded(xml_tokens(ping_response@)),
            ),
    {
        match decode(ping_response) {
            Ok(ping) => SubsonicClient::from_ping(username, password, url, &ping),
            Err(e) => Err(Error::Decode(e)),
        }
    }

    /// The user in whose name requests are made.
    pub fn username(&self) -> (r: &str)
        ensures
            r@ == self.deep_view().username,
    {
        self.username.as_str()
    }

    /// The address of the server, without the `/rest/` part.
    pub fn url(&self) -> (r: &str)
        ensures
            r@ == self.deep_view().url,
    {
        self.url.as_str()
    }

    /// The version that the server reported.
    pub fn version(&self) -> (r: Version)
        ensures
            r == self.deep_view().version,
    {
        self.version
    }

    /// Whether the server is new enough for an operation.
    pub fn supports(&self, op: Operation) -> (r: bool)
        ensures
            r == at_least(self.deep_view().version, registry(op).since),
    {
        satisfies(self.version, op.info().since)
    }

    /// The two halves that an operation's name goes between, with the given
    /// credential.
    pub fn make_url_with(&self, auth: &str) -> (r: (String, String))
        ensures
            r.0@ == endpoint(self.deep_view()),
            r.1@ == shared_query(self.deep_view(), auth@),
    {
        let mut base = self.url.clone();
        base.append("/rest/");
        let mut shared = String::from_str("?u=");
        shared.append(self.username.as_str());
        shared.append("&v=");
        self.version.push_to(&mut shared);
        shared.append("&f=xml&");
        shared.append(auth);
        (base, shared)
    }

    /// The two halves that an operation's name goes between. Where the
    /// server takes a salted hash, each call draws a salt of its own.
    pub fn make_url(&self) -> (r: (String, String))
        ensures
            r.0@ == endpoint(self.deep_view()),
            exists|salt: Seq<char>| #[trigger]
                is_salt(salt) && r.1@ == shared_query(
                    self.deep_view(),
                    credential(self.deep_view().password, self.deep_view().version, salt),
                ),
    {
        let auth = encode(self.password.as_str(), self.version);
        let ghost salt = choose|salt: Seq<char>| #[trigger]
            is_salt(salt) && auth@ == credential(self.password@, self.version, salt);
        let r = self.make_url_with(auth.as_str());
        assert(is_salt(salt) && r.1@ == shared_query(
            self.deep_view(),
            credential(self.deep_view().password, self.deep_view().version, salt),
        ));
        r
    }

    /// The credential for this client's server, with the salt to use if the
    /// server takes one.
    pub fn credential_with(&self, salt: &str) -> (r: String)
        ensures
            r@ == credential(self.deep_view().password, self.deep_view().version, salt@),
    {
        encode_with(self.password.as_str(), self.version, salt)
    }

    /// The address of a call with the given credential, or why the call
    /// cannot be made.
    pub fn build_with(&self, op: Operation, args: &Vec<Option<ArgValue>>, auth: &str) -> (r: Result<
        String,
        Error,
    >)
        ensures
            text_view(r) == request(self.deep_view(), op, args.deep_view(), auth@),
    {
        let info = op.info();
        let needed = info.since;
        if !satisfies(self.version, needed) {
            return Err(
                Error::APIVersionMismatch(
                    self.version.major,
                    self.version.minor,
                    self.version.patch,
                    needed.major,
                    needed.minor,
                    needed.patch,
                ),
            );
        }
        let q = build_query(self.version, &info.parameters, args)?;
        let halves = self.make_url_with(auth);
        let mut out = halves.0;
        push_camel(&mut out, info.name);
        out.append(halves.1.as_str());
        out.append(q.as_str());
        Ok(out)
    }

    /// The address of a call, or why the call cannot be made. Nothing is
    /// sent: a refusal comes before any request.
    pub fn build(&self, op: Operation, args: &Vec<Option<ArgValue>>) -> (r: Result<String, Error>)
        ensures
            exists|salt: Seq<char>| #[trigger]
                is_salt(salt) && text_view(r) == request(
                    self.deep_view(),
                    op,
                    args.deep_view(),
                    credential(self.deep_view().password, self.deep_view().version, salt),
                ),
    {
        let auth = encode(self.password.as_str(), self.version);
        let ghost salt = choose|salt: Seq<char>| #[trigger]
            is_salt(salt) && auth@ == credential(self.password@, self.version, salt);
        let r = self.build_with(op, args, auth.as_str());
        assert(is_salt(salt) && text_view(r) == request(
            self.deep_view(),
            op,
            args.deep_view(),
            credential(self.deep_view().password, self.deep_view().version, salt),
        ));
        r
    }
}

/// A call that supplies a value for a parameter that the server is too old
/// for is refused with an argument mismatch, also where the server is new
/// enough for the operation itself. The error names the server's version and
/// a version that the server does not reach.
pub proof fn lemma_newer_argument_refuses_call(
    c: ClientView,
    op: Operation,
    args: Seq<Option<ArgValueView>>,
    auth: Seq<char>,
    k: nat,
)
    requires
        at_least(c.version, registry(op).since),
        k < registry(op).parameters.len(),
        arg_at(args, k as int) is Some,
        !at_least(c.version, registry(op).parameters[k as int].since),
    ensures
        request(c, op, args, auth) matches Err(Error::ArgsVersionMismatch(a, b, c0, d, e, f)) && (
        Version { major: a, minor: b, patch: c0 }) == c.version && !at_least(
            c.version,
            Version { major: d, minor: e, patch: f },
        ),
{
    lemma_newer_argument_is_refused(c.version, registry(op).parameters, args, 0, Seq::empty(), k);
}

/// A server that is too old for an operation is refused the operation,
/// whatever the arguments are.
pub proof fn lemma_older_server_refuses_call(
    c: ClientView,
    op: Operation,
    args: Seq<Option<ArgValueView>>,
    auth: Seq<char>,
)
    requires
        !at_least(c.version, registry(op).since),
    ensures
        request(c, op, args, auth) == Err::<Seq<char>, Error>(
            api_mismatch(c.version, registry(op).since),
        ),
{
}

/// No address is formed for a call that the server cannot take: where one is
/// formed, the server is new enough for the operation and for every
/// parameter that the call gives a value.
pub proof fn lemma_built_call_is_supported(
    c: ClientView,
    op: Operation,
    args: Seq<Option<ArgValueView>>,
    auth: Seq<char>,
)
    requires
        request(c, op, args, auth) is Ok,
    ensures
        at_least(c.version, registry(op).since),
        forall|k: int|
            0 <= k < registry(op).parameters.len() && (#[trigger] arg_at(args, k)) is Some
                ==> at_least(c.version, registry(op).parameters[k].since),
{
    lemma_query_holds_supported_arguments(c.version, registry(op).parameters, args, Seq::empty());
}

} // verus!
