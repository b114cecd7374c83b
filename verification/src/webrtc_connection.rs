//! What a WebRTC connection is set up from: the certificate fingerprints of the two
//! sides, the ICE credentials derived from them, the settings of the WebRTC engine and the
//! session description that stands in for the remote side's. Opening the connection itself
//! is left to the caller, who hands the results to the WebRTC stack.

use multihash::StatefulHasher;
use rand::distributions::Alphanumeric;
use rand::Rng;
use vstd::prelude::*;

verus! {

// ----------------------------------------------------------------------------------------
// Results of other code, by name
// ----------------------------------------------------------------------------------------

/// What `str::to_lowercase` returns for a string with these characters.
pub uninterp spec fn lowercase_of(s: Seq<char>) -> Seq<char>;

/// The SHA-256 digest of `data`, as `multihash::Sha2_256` computes it.
pub uninterp spec fn sha256_of(data: Seq<u8>) -> Seq<u8>;

/// What TinyTemplate renders from `template` with a context whose fields `ip_version`,
/// `target_ip`, `target_port`, `fingerprint_algorithm`, `fingerprint_value`, `ufrag` and `pwd`
/// hold these values; `None` when the template does not compile or does not render.
pub uninterp spec fn rendered_description(
    template: Seq<char>,
    ip_version: Seq<char>,
    target_ip: Seq<char>,
    target_port: u16,
    fingerprint_algorithm: Seq<char>,
    fingerprint_value: Seq<char>,
    ufrag: Seq<char>,
    pwd: Seq<char>,
) -> Option<Seq<char>>;

/// Calls `str::to_lowercase`; claims that the result is [`lowercase_of`] the argument,
/// and, for a string of ASCII characters, that each ASCII upper-case letter becomes its
/// lower-case letter and every other character stays, one for one (the Unicode lower-case
/// mapping that the function is documented to follow, on ASCII). What it does to other
/// characters is left to the name.
#[verifier::external_body]
fn lowercase(s: &str) -> (lower: String)
    ensures
        lower@ == lowercase_of(s@),
        all_ascii(s@) ==> lower@ == ascii_lowercase(s@),
{
    s.to_lowercase()
}

/// Hashes `data` with `multihash::Sha2_256` (`update`, then `finalize`); claims that the
/// 32 bytes of the digest are [`sha256_of`] the data.
#[verifier::external_body]
fn sha256(data: &[u8]) -> (digest: [u8; 32])
    ensures
        digest@ == sha256_of(data@),
{
    let mut hasher = multihash::Sha2_256::default();
    hasher.update(data);
    let mut digest = [0u8; 32];
    digest.copy_from_slice(hasher.finalize().as_ref());
    digest
}

/// Draws `len` characters from rand's `Alphanumeric` distribution with `thread_rng()`;
/// claims only that there are `len` of them and that each is an ASCII letter or digit,
/// which is the set `Alphanumeric` draws from. Which characters come out is left open.
#[verifier::external_body]
fn random_alphanumeric(len: usize) -> (s: String)
    ensures
        s@.len() == len,
        forall|i: int| 0 <= i < len ==> is_ascii_alphanumeric(#[trigger] s@[i]),
{
    rand::thread_rng().sample_iter(&Alphanumeric).take(len).map(char::from).collect()
}

/// Renders `template` with TinyTemplate (`TinyTemplate::new`, `add_template`, `render`,
/// with the default, HTML-escaping formatter) and a context of these fields, the port as a
/// number and the others as strings; claims that the result is [`rendered_description`] of
/// the arguments, and that it is there. Only [`admissible_template`]s are admitted (text,
/// and tags `{field}` naming context fields): on those, `compile` meets only literal and
/// value instructions (a `\` before a `{` or at the end would escape or panic, so none
/// is), every value is found in the context, and the default formatter formats strings
/// and numbers without error. On other templates TinyTemplate may panic, recurse without
/// end, or fail.
#[verifier::external_body]
fn render_template(
    template: &str,
    ip_version: &str,
    target_ip: &str,
    target_port: u16,
    fingerprint_algorithm: &str,
    fingerprint_value: &str,
    ufrag: &str,
    pwd: &str,
) -> (rendered: Option<String>)
    requires
        admissible_template(template@),
    ensures
        rendered is Some,
        view_option(rendered) == rendered_description(
            template@,
            ip_version@,
            target_ip@,
            target_port,
            fingerprint_algorithm@,
            fingerprint_value@,
            ufrag@,
            pwd@,
        ),
{
    let mut tt = tinytemplate::TinyTemplate::new();
    tt.add_template("description", template).ok()?;
    let mut context = serde_json::Map::new();
    context.insert("ip_version".to_string(), ip_version.into());
    context.insert("target_ip".to_string(), target_ip.into());
    context.insert("target_port".to_string(), target_port.into());
    context.insert("fingerprint_algorithm".to_string(), fingerprint_algorithm.into());
    context.insert("fingerprint_value".to_string(), fingerprint_value.into());
    context.insert("ufrag".to_string(), ufrag.into());
    context.insert("pwd".to_string(), pwd.into());
    tt.render("description", &context).ok()
}

// ----------------------------------------------------------------------------------------
// Characters and hexadecimal
// ----------------------------------------------------------------------------------------

/// The view of an optional string.
pub open spec fn view_option(s: Option<String>) -> Option<Seq<char>> {
    match s {
        Some(s) => Some(s@),
        None => None,
    }
}

/// An ASCII letter or digit.
pub open spec fn is_ascii_alphanumeric(c: char) -> bool {
    ||| '0' <= c <= '9'
    ||| 'A' <= c <= 'Z'
    ||| 'a' <= c <= 'z'
}

/// The upper-case hexadecimal digits, in order of value.
pub open spec fn hex_digits() -> Seq<char> {
    seq!['0', '1', '2', '3', '4', '5', '6', '7', '8', '9', 'A', 'B', 'C', 'D', 'E', 'F']
}

/// A byte as two upper-case hexadecimal digits, the high one first.
pub open spec fn byte_hex(b: u8) -> Seq<char> {
    seq![hex_digits()[(b / 16) as int], hex_digits()[(b % 16) as int]]
}

/// The bytes as upper-case hexadecimal pairs separated by `:`.
pub open spec fn colon_hex(bytes: Seq<u8>) -> Seq<char>
    decreases bytes.len(),
{
    if bytes.len() == 0 {
        Seq::empty()
    } else if bytes.len() == 1 {
        byte_hex(bytes[0])
    } else {
        colon_hex(bytes.drop_last()) + seq![':'] + byte_hex(bytes.last())
    }
}

/// The bytes as upper-case hexadecimal pairs, with nothing between them.
pub open spec fn plain_hex(bytes: Seq<u8>) -> Seq<char>
    decreases bytes.len(),
{
    if bytes.len() == 0 {
        Seq::empty()
    } else {
        plain_hex(bytes.drop_last()) + byte_hex(bytes.last())
    }
}

/// The characters of `s` other than `:`, in order.
pub open spec fn without_colons(s: Seq<char>) -> Seq<char> {
    s.filter(|c: char| c != ':')
}

/// The name of the hash function of the fingerprints made here.
pub open spec fn sha256_name() -> Seq<char> {
    seq!['s', 'h', 'a', '-', '2', '5', '6']
}

/// The upper-case hexadecimal digit of `n`.
fn hex_digit(n: u8) -> (digit: &'static str)
    requires
        n < 16,
    ensures
        digit@ == seq![hex_digits()[n as int]],
{
    let digits = "0123456789ABCDEF";
    proof {
        reveal_strlit("0123456789ABCDEF");
        assert(digits@ =~= hex_digits());
    }
    digits.substring_ascii(n as usize, n as usize + 1)
}

/// `s` without its `:` characters.
fn remove_colons(s: &str) -> (stripped: String)
    ensures
        stripped@ == without_colons(s@),
{
    let n: usize = s.unicode_len();
    let mut stripped = String::new();
    let mut start: usize = 0;
    let mut i: usize = 0;
    while i < n
        invariant
            n == s@.len(),
            start <= i <= n,
            stripped@ == without_colons(s@.take(start as int)),
            forall|k: int| start <= k < i ==> s@[k] != ':',
        decreases n - i,
    {
        if s.get_char(i) == ':' {
            let segment = s.substring_char(start, i);
            proof {
                lemma_without_colons_split(s@, start as int, i as int);
            }
            stripped.append(segment);
            start = i + 1;
        }
        i += 1;
    }
    let rest = s.substring_char(start, n);
    proof {
        lemma_without_colons_tail(s@, start as int);
    }
    stripped.append(rest);
    stripped
}

/// A sequence with no `:` is its own `without_colons`.
proof fn lemma_without_colons_of_colon_free(s: Seq<char>)
    requires
        forall|k: int| 0 <= k < s.len() ==> s[k] != ':',
    ensures
        without_colons(s) == s,
    decreases s.len(),
{
    reveal(Seq::filter);
    if s.len() > 0 {
        lemma_without_colons_of_colon_free(s.drop_last());
        assert(s.drop_last().push(s.last()) =~= s);
    }
}

/// Removing the colons up to a `:` at `i`, of which none lies in `[start, i)`, adds that
/// colon-free segment to what was removed up to `start`.
proof fn lemma_without_colons_split(s: Seq<char>, start: int, i: int)
    requires
        0 <= start <= i < s.len(),
        s[i] == ':',
        forall|k: int| start <= k < i ==> s[k] != ':',
    ensures
        without_colons(s.take(i + 1)) == without_colons(s.take(start)) + s.subrange(start, i),
{
    let pred = |c: char| c != ':';
    let segment = s.subrange(start, i);
    assert(s.take(i + 1) =~= s.take(start) + segment + seq![':']);
    Seq::filter_distributes_over_add(s.take(start) + segment, seq![':'], pred);
    Seq::filter_distributes_over_add(s.take(start), segment, pred);
    lemma_without_colons_of_colon_free(segment);
    reveal(Seq::filter);
    assert(seq![':'].drop_last() =~= Seq::<char>::empty());
    assert(Seq::<char>::empty().filter(pred) =~= Seq::<char>::empty());
    assert(!pred(seq![':'].last()));
    assert(seq![':'].filter(pred) =~= Seq::<char>::empty());
}

/// Removing the colons of a sequence whose part from `start` on has none adds that part to
/// what was removed up to `start`.
proof fn lemma_without_colons_tail(s: Seq<char>, start: int)
    requires
        0 <= start <= s.len(),
        forall|k: int| start <= k < s.len() ==> s[k] != ':',
    ensures
        without_colons(s) == without_colons(s.take(start)) + s.subrange(start, s.len() as int),
{
    let pred = |c: char| c != ':';
    let tail = s.subrange(start, s.len() as int);
    assert(s =~= s.take(start) + tail);
    Seq::filter_distributes_over_add(s.take(start), tail, pred);
    lemma_without_colons_of_colon_free(tail);
}


// ----------------------------------------------------------------------------------------
// Fingerprints
// ----------------------------------------------------------------------------------------

/// A certificate fingerprint: the name of a hash function and the digest, as text.
pub struct Fingerprint {
    algorithm: String,
    value: String,
}

/// What a [`Fingerprint`] holds.
pub struct FingerprintView {
    /// The name of the hash function.
    pub algorithm: Seq<char>,
    /// The digest, as text.
    pub value: Seq<char>,
}

impl FingerprintView {
    /// The ICE username fragment (and password) that this fingerprint stands for: its value
    /// without colons, in lower case.
    pub open spec fn ufrag(self) -> Seq<char> {
        lowercase_of(without_colons(self.value))
    }
}

impl View for Fingerprint {
    type V = FingerprintView;

    closed spec fn view(&self) -> FingerprintView {
        FingerprintView { algorithm: self.algorithm@, value: self.value@ }
    }
}

/// The text `sha-256`.
fn sha256_algorithm() -> (name: String)
    ensures
        name@ == sha256_name(),
{
    let name = String::from_str("sha-256");
    proof {
        reveal_strlit("sha-256");
        assert(name@ =~= sha256_name());
    }
    name
}

impl Fingerprint {
    /// A fingerprint with the hash function `sha-256` and `value` as its digest.
    pub fn new_sha256(value: String) -> (fingerprint: Self)
        ensures
            fingerprint@ == (FingerprintView { algorithm: sha256_name(), value: value@ }),
    {
        Fingerprint { algorithm: sha256_algorithm(), value }
    }

    /// The `sha-256` fingerprint whose digest is `bytes`, written as upper-case hexadecimal
    /// pairs separated by `:` (such as `7D:E3:D8`).
    pub fn from_bytes(bytes: &[u8]) -> (fingerprint: Self)
        ensures
            fingerprint@ == (FingerprintView {
                algorithm: sha256_name(),
                value: colon_hex(bytes@),
            }),
    {
        let mut value = String::new();
        let mut i: usize = 0;
        while i < bytes.len()
            invariant
                i <= bytes.len(),
                value@ == colon_hex(bytes@.take(i as int)),
            decreases bytes.len() - i,
        {
            if i > 0 {
                let colon = ":";
                proof {
                    reveal_strlit(":");
                }
                value.append(colon);
            }
            let b: u8 = bytes[i];
            value.append(hex_digit(b / 16));
            value.append(hex_digit(b % 16));
            proof {
                assert(bytes@.take(i + 1).drop_last() =~= bytes@.take(i as int));
                assert(bytes@.take(i + 1).last() == b);
                if i == 0 {
                    assert(colon_hex(bytes@.take(0)) =~= Seq::<char>::empty());
                }
                assert(value@ =~= colon_hex(bytes@.take(i + 1)));
            }
            i += 1;
        }
        proof {
            assert(bytes@.take(bytes.len() as int) =~= bytes@);
        }
        Fingerprint { algorithm: sha256_algorithm(), value }
    }

    /// The ICE username fragment that this fingerprint stands for: the value without its
    /// colons, in lower case.
    pub fn to_ufrag(&self) -> (ufrag: String)
        ensures
            ufrag@ == self@.ufrag(),
            all_ascii(without_colons(self@.value)) ==> ufrag@ == ascii_lowercase(
                without_colons(self@.value),
            ),
    {
        let stripped = remove_colons(self.value.as_str());
        lowercase(stripped.as_str())
    }

    /// The digest, as text.
    pub fn value(&self) -> (value: String)
        ensures
            value@ == self@.value,
    {
        self.value.clone()
    }

    /// The name of the hash function (such as `sha-256`).
    pub fn algorithm(&self) -> (algorithm: String)
        ensures
            algorithm@ == self@.algorithm,
    {
        self.algorithm.clone()
    }

    /// The digest, as text, borrowed.
    pub fn as_str(&self) -> (value: &str)
        ensures
            value@ == self@.value,
    {
        self.value.as_str()
    }
}


// ----------------------------------------------------------------------------------------
// Addresses and session descriptions
// ----------------------------------------------------------------------------------------

/// An IP address, in its usual textual form.
#[derive(Debug, Clone)]
pub enum IpAddress {
    /// An IPv4 address, such as `10.11.12.13`.
    V4(String),
    /// An IPv6 address, such as `::1`.
    V6(String),
}

/// A socket address: an IP address and a port.
#[derive(Debug, Clone)]
pub struct SocketAddress {
    /// The IP address.
    pub ip: IpAddress,
    /// The port.
    pub port: u16,
}

/// The IP version, as a session description names it.
#[derive(Debug, Clone, Copy, PartialEq, Eq, Structural)]
pub enum IpVersion {
    /// `IP4`.
    IP4,
    /// `IP6`.
    IP6,
}

impl IpVersion {
    /// The name of the version in a session description.
    pub open spec fn name(self) -> Seq<char> {
        match self {
            IpVersion::IP4 => seq!['I', 'P', '4'],
            IpVersion::IP6 => seq!['I', 'P', '6'],
        }
    }

    /// The name of the version in a session description.
    pub fn as_str(&self) -> (name: &'static str)
        ensures
            name@ == self.name(),
    {
        match self {
            IpVersion::IP4 => {
                proof {
                    reveal_strlit("IP4");
                }
                "IP4"
            },
            IpVersion::IP6 => {
                proof {
                    reveal_strlit("IP6");
                }
                "IP6"
            },
        }
    }
}

impl SocketAddress {
    /// Whether the IP address is an IPv4 address.
    pub open spec fn is_v4(self) -> bool {
        self.ip is V4
    }

    /// The IP address, as text.
    pub open spec fn ip_text(self) -> Seq<char> {
        match self.ip {
            IpAddress::V4(text) => text@,
            IpAddress::V6(text) => text@,
        }
    }

    /// The IP version of the address.
    pub open spec fn ip_version(self) -> IpVersion {
        if self.is_v4() {
            IpVersion::IP4
        } else {
            IpVersion::IP6
        }
    }

    /// Whether the IP address is an IPv4 address.
    pub fn is_ipv4(&self) -> (is_v4: bool)
        ensures
            is_v4 == self.is_v4(),
            is_v4 == (self.ip is V4),
    {
        match self.ip {
            IpAddress::V4(_) => true,
            IpAddress::V6(_) => false,
        }
    }

    /// The IP address, as text.
    pub fn ip(&self) -> (text: &str)
        ensures
            text@ == self.ip_text(),
            self.ip matches IpAddress::V4(t) ==> text@ == t@,
            self.ip matches IpAddress::V6(t) ==> text@ == t@,
    {
        match &self.ip {
            IpAddress::V4(text) => text.as_str(),
            IpAddress::V6(text) => text.as_str(),
        }
    }
}

/// The answer of a listener, as a dialer expects it, with the fields `ip_version`,
/// `target_ip`, `target_port`, `fingerprint_algorithm`, `fingerprint_value`, `ufrag` and `pwd`.
pub const SERVER_SESSION_DESCRIPTION: &'static str = "v=0
o=- 0 0 IN {ip_version} {target_ip}
s=-
t=0 0
a=ice-lite
m=application {target_port} UDP/DTLS/SCTP webrtc-datachannel
c=IN {ip_version} {target_ip}
a=mid:0
a=ice-options:ice2
a=ice-ufrag:{ufrag}
a=ice-pwd:{pwd}
a=fingerprint:{fingerprint_algorithm} {fingerprint_value}
a=setup:passive
a=sctp-port:5000
a=max-message-size:16384
a=candidate:1 1 UDP 1 {target_ip} {target_port} typ host
";

/// The offer of a dialer, as a listener reconstructs it, with the same fields as
/// [`SERVER_SESSION_DESCRIPTION`].
pub const CLIENT_SESSION_DESCRIPTION: &'static str = "v=0
o=- 0 0 IN {ip_version} {target_ip}
s=-
c=IN {ip_version} {target_ip}
t=0 0

m=application {target_port} UDP/DTLS/SCTP webrtc-datachannel
a=mid:0
a=ice-options:ice2
a=ice-ufrag:{ufrag}
a=ice-pwd:{pwd}
a=fingerprint:{fingerprint_algorithm} {fingerprint_value}
a=setup:actpass
a=sctp-port:5000
a=max-message-size:16384
";

/// The session description that `template` renders to for a peer at `addr` with
/// `fingerprint`, whose ICE username fragment and password are both `ufrag`; `None` when
/// the template cannot be rendered, which an [`admissible_template`] always can.
pub open spec fn description_for(
    template: Seq<char>,
    addr: SocketAddress,
    fingerprint: FingerprintView,
    ufrag: Seq<char>,
) -> Option<Seq<char>> {
    rendered_description(
        template,
        addr.ip_version().name(),
        addr.ip_text(),
        addr.port,
        fingerprint.algorithm,
        fingerprint.value,
        ufrag,
        ufrag,
    )
}

/// Renders the session description template `description` for a peer at `addr` with
/// `fingerprint`, whose ICE username fragment and password are both `ufrag`.
pub fn render_description(
    description: &str,
    addr: &SocketAddress,
    fingerprint: &Fingerprint,
    ufrag: &str,
) -> (rendered: String)
    requires
        admissible_template(description@),
    ensures
        Some(rendered@) == description_for(description@, *addr, fingerprint@, ufrag@),
{
    let ip_version = if addr.is_ipv4() {
        IpVersion::IP4
    } else {
        IpVersion::IP6
    };
    let algorithm = fingerprint.algorithm();
    let value = fingerprint.value();
    match render_template(
        description,
        ip_version.as_str(),
        addr.ip(),
        addr.port,
        algorithm.as_str(),
        value.as_str(),
        ufrag,
        ufrag,
    ) {
        Some(rendered) => rendered,
        None => {
            proof {
                assert(false);
            }
            unreached()
        },
    }
}

// ----------------------------------------------------------------------------------------
// Engine settings and connection set-up
// ----------------------------------------------------------------------------------------

/// The network type that ICE gathers candidates on.
#[derive(Debug, Clone, Copy, PartialEq, Eq, Structural)]
pub enum NetworkType {
    /// UDP over IPv4.
    Udp4,
    /// UDP over IPv6.
    Udp6,
}

/// The DTLS role that the local side takes when it answers.
#[derive(Debug, Clone, Copy, PartialEq, Eq, Structural)]
pub enum DtlsRole {
    /// Left to the WebRTC engine.
    Unspecified,
    /// Chosen automatically.
    Auto,
    /// DTLS client.
    Client,
    /// DTLS server: wait for the other side's handshake.
    Server,
}

/// The settings of the WebRTC engine for one connection (besides the UDP socket, which the
/// caller supplies).
pub struct EngineSettings {
    /// The local ICE username fragment.
    pub ice_username_fragment: String,
    /// The local ICE password.
    pub ice_password: String,
    /// Whether data channels are detached from the engine, to be read and written directly.
    pub detach_data_channels: bool,
    /// The network types to gather candidates on.
    pub network_types: Vec<NetworkType>,
    /// Whether the local side is an ICE lite agent.
    pub lite: bool,
    /// Whether the engine skips checking the remote certificate against its fingerprint.
    pub disable_certificate_fingerprint_verification: bool,
    /// The DTLS role when answering.
    pub answering_dtls_role: DtlsRole,
}

/// What [`EngineSettings`] hold.
pub struct EngineSettingsView {
    pub ice_username_fragment: Seq<char>,
    pub ice_password: Seq<char>,
    pub detach_data_channels: bool,
    pub network_types: Seq<NetworkType>,
    pub lite: bool,
    pub disable_certificate_fingerprint_verification: bool,
    pub answering_dtls_role: DtlsRole,
}

impl View for EngineSettings {
    type V = EngineSettingsView;

    open spec fn view(&self) -> EngineSettingsView {
        EngineSettingsView {
            ice_username_fragment: self.ice_username_fragment@,
            ice_password: self.ice_password@,
            detach_data_channels: self.detach_data_channels,
            network_types: self.network_types@,
            lite: self.lite,
            disable_certificate_fingerprint_verification:
                self.disable_certificate_fingerprint_verification,
            answering_dtls_role: self.answering_dtls_role,
        }
    }
}

/// The network type for an IPv4 (`true`) or IPv6 (`false`) address.
pub open spec fn network_type_for(is_ipv4: bool) -> NetworkType {
    if is_ipv4 {
        NetworkType::Udp4
    } else {
        NetworkType::Udp6
    }
}

/// The settings common to both sides: `ufrag` as ICE username fragment and password,
/// detached data channels, and the one network type of the address's IP version.
pub open spec fn engine_settings(ufrag: Seq<char>, is_ipv4: bool) -> EngineSettingsView {
    EngineSettingsView {
        ice_username_fragment: ufrag,
        ice_password: ufrag,
        detach_data_channels: true,
        network_types: seq![network_type_for(is_ipv4)],
        lite: false,
        disable_certificate_fingerprint_verification: false,
        answering_dtls_role: DtlsRole::Unspecified,
    }
}

/// The settings of the listening side: those of [`engine_settings`], as an ICE lite agent
/// that does not check the remote certificate's fingerprint and answers as DTLS server.
pub open spec fn listener_settings(ufrag: Seq<char>, is_ipv4: bool) -> EngineSettingsView {
    EngineSettingsView {
        lite: true,
        disable_certificate_fingerprint_verification: true,
        answering_dtls_role: DtlsRole::Server,
        ..engine_settings(ufrag, is_ipv4)
    }
}

/// The fingerprint that a listener puts into the dialer's session description; its
/// value does not matter, as the listener does not check it.
pub open spec fn placeholder_fingerprint() -> FingerprintView {
    FingerprintView { algorithm: sha256_name(), value: seq!['N', 'O', 'N', 'E'] }
}

/// The engine settings for a connection whose ICE username fragment and password are both
/// `ufrag`, on an IPv4 (`is_ipv4`) or IPv6 address.
pub fn setting_engine(ufrag: &str, is_ipv4: bool) -> (settings: EngineSettings)
    ensures
        settings@ == engine_settings(ufrag@, is_ipv4),
{
    let network_type = if is_ipv4 {
        NetworkType::Udp4
    } else {
        NetworkType::Udp6
    };
    let mut network_types = Vec::new();
    network_types.push(network_type);
    let settings = EngineSettings {
        ice_username_fragment: ufrag.to_owned(),
        ice_password: ufrag.to_owned(),
        detach_data_channels: true,
        network_types,
        lite: false,
        disable_certificate_fingerprint_verification: false,
        answering_dtls_role: DtlsRole::Unspecified,
    };
    proof {
        assert(settings@.network_types =~= seq![network_type_for(is_ipv4)]);
    }
    settings
}

/// What the dialing side opens a connection with: its engine settings, and the session
/// description that stands in for the listener's answer.
pub struct DialParameters {
    pub settings: EngineSettings,
    pub remote_description: String,
}

/// What the listening side accepts a connection with: its engine settings, and the
/// session description that stands in for the dialer's offer.
pub struct ListenParameters {
    pub settings: EngineSettings,
    pub remote_description: String,
}

/// `p` is what a dialer at `ufrag` opens a connection to a listener at `addr` with, the
/// listener's certificate having `remote_fingerprint`: engine settings with `ufrag` as ICE
/// credentials, and as the listener's answer [`SERVER_SESSION_DESCRIPTION`] rendered with
/// the listener's fingerprint and the ICE credentials that fingerprint stands for.
pub open spec fn is_dial_setup(
    p: DialParameters,
    addr: SocketAddress,
    remote_fingerprint: FingerprintView,
    ufrag: Seq<char>,
) -> bool {
    &&& p.settings@ == engine_settings(ufrag, addr.is_v4())
    &&& Some(p.remote_description@) == description_for(
        SERVER_SESSION_DESCRIPTION@,
        addr,
        remote_fingerprint,
        remote_fingerprint.ufrag(),
    )
}

/// `p` is what a listener accepts a connection from a dialer at `addr` with, whose ICE
/// credentials are `remote_ufrag`, the local certificate having `our_fingerprint`: the ICE
/// credentials `our_fingerprint` stands for, [`listener_settings`], and as the dialer's
/// offer [`CLIENT_SESSION_DESCRIPTION`] rendered with [`placeholder_fingerprint`] and
/// `remote_ufrag`.
pub open spec fn is_listen_setup(
    p: ListenParameters,
    addr: SocketAddress,
    our_fingerprint: FingerprintView,
    remote_ufrag: Seq<char>,
) -> bool {
    &&& p.settings@ == listener_settings(our_fingerprint.ufrag(), addr.is_v4())
    &&& Some(p.remote_description@) == description_for(
        CLIENT_SESSION_DESCRIPTION@,
        addr,
        placeholder_fingerprint(),
        remote_ufrag,
    )
}

/// The parameters for dialing a listener at `addr` whose certificate has
/// `remote_fingerprint`, with `ufrag` as local ICE username fragment and password.
pub fn dial_parameters(addr: &SocketAddress, remote_fingerprint: &Fingerprint, ufrag: &str) -> (parameters: DialParameters)
    ensures
        is_dial_setup(parameters, *addr, remote_fingerprint@, ufrag@),
{
    let settings = setting_engine(ufrag, addr.is_ipv4());
    let remote_ufrag = remote_fingerprint.to_ufrag();
    proof {
        lemma_server_description_admissible();
    }
    let remote_description = render_description(
        SERVER_SESSION_DESCRIPTION,
        addr,
        remote_fingerprint,
        remote_ufrag.as_str(),
    );
    DialParameters { settings, remote_description }
}

/// The length of the random ICE username fragment of a dialer.
pub const DIALER_UFRAG_LEN: usize = 64;

/// The parameters for dialing a listener at `addr` whose certificate has
/// `remote_fingerprint`, with a fresh random ICE username fragment (of
/// [`DIALER_UFRAG_LEN`] ASCII letters and digits) as local ICE username fragment and
/// password.
pub fn connect_parameters(addr: &SocketAddress, remote_fingerprint: &Fingerprint) -> (parameters: DialParameters)
    ensures
        ({
            let ufrag = parameters.settings@.ice_username_fragment;
            &&& ufrag.len() == DIALER_UFRAG_LEN
            &&& forall|i: int| 0 <= i < ufrag.len() ==> is_ascii_alphanumeric(#[trigger] ufrag[i])
            &&& is_dial_setup(parameters, *addr, remote_fingerprint@, ufrag)
        }),
{
    let ufrag = random_alphanumeric(DIALER_UFRAG_LEN);
    dial_parameters(addr, remote_fingerprint, ufrag.as_str())
}

/// The parameters for accepting a connection from a dialer at `addr` whose ICE username
/// fragment (and password) is `remote_ufrag`, the local certificate having
/// `our_fingerprint`.
pub fn listen_parameters(
    addr: &SocketAddress,
    our_fingerprint: &Fingerprint,
    remote_ufrag: &str,
) -> (parameters: ListenParameters)
    ensures
        is_listen_setup(parameters, *addr, our_fingerprint@, remote_ufrag@),
{
    let ufrag = our_fingerprint.to_ufrag();
    let mut settings = setting_engine(ufrag.as_str(), addr.is_ipv4());
    settings.lite = true;
    settings.disable_certificate_fingerprint_verification = true;
    settings.answering_dtls_role = DtlsRole::Server;
    let none = String::from_str("NONE");
    proof {
        reveal_strlit("NONE");
        assert(none@ =~= placeholder_fingerprint().value);
        lemma_client_description_admissible();
    }
    let placeholder = Fingerprint::new_sha256(none);
    let remote_description = render_description(
        CLIENT_SESSION_DESCRIPTION,
        addr,
        &placeholder,
        remote_ufrag,
    );
    ListenParameters { settings, remote_description }
}

/// The fingerprint bytes of a certificate: the SHA-256 digest of its bytes.
pub fn certificate_fingerprint(certificate: &[u8]) -> (digest: [u8; 32])
    ensures
        digest@ == sha256_of(certificate@),
{
    sha256(certificate)
}


// ----------------------------------------------------------------------------------------
// Laws
// ----------------------------------------------------------------------------------------

/// The hexadecimal text of a byte has no colon.
proof fn lemma_byte_hex_colon_free(b: u8)
    ensures
        forall|k: int| 0 <= k < byte_hex(b).len() ==> byte_hex(b)[k] != ':',
{
    assert(0 <= b / 16 < 16);
    assert(0 <= b % 16 < 16);
}

/// Removing the colons from the colon-separated hexadecimal text of some bytes leaves their
/// plain hexadecimal text; so the ICE username fragment of a fingerprint made from bytes is
/// the lower-case form of their plain hexadecimal text.
pub proof fn lemma_ufrag_of_bytes(bytes: Seq<u8>)
    ensures
        without_colons(colon_hex(bytes)) == plain_hex(bytes),
        (FingerprintView { algorithm: sha256_name(), value: colon_hex(bytes) }).ufrag()
            == lowercase_of(plain_hex(bytes)),
    decreases bytes.len(),
{
    let pred = |c: char| c != ':';
    if bytes.len() == 0 {
        reveal(Seq::filter);
        assert(colon_hex(bytes) =~= Seq::<char>::empty());
        assert(plain_hex(bytes) =~= Seq::<char>::empty());
    } else {
        let last = byte_hex(bytes.last());
        lemma_byte_hex_colon_free(bytes.last());
        lemma_without_colons_of_colon_free(last);
        if bytes.len() == 1 {
            assert(bytes.drop_last() =~= Seq::<u8>::empty());
            assert(plain_hex(bytes.drop_last()) =~= Seq::<char>::empty());
            assert(plain_hex(bytes) =~= last);
            assert(bytes.last() == bytes[0]);
        } else {
            lemma_ufrag_of_bytes(bytes.drop_last());
            let front = colon_hex(bytes.drop_last());
            Seq::filter_distributes_over_add(front + seq![':'], last, pred);
            Seq::filter_distributes_over_add(front, seq![':'], pred);
            reveal(Seq::filter);
            assert(seq![':'].drop_last() =~= Seq::<char>::empty());
            assert(Seq::<char>::empty().filter(pred) =~= Seq::<char>::empty());
            assert(!pred(seq![':'].last()));
            assert(seq![':'].filter(pred) =~= Seq::<char>::empty());
            assert(front + Seq::<char>::empty() =~= front);
            assert(without_colons(front) + Seq::<char>::empty() =~= without_colons(front));
        }
    }
}

/// The colon-separated hexadecimal text of `n > 0` bytes has `3n - 1` characters, and
/// their plain hexadecimal text `2n`.
pub proof fn lemma_hex_len(bytes: Seq<u8>)
    ensures
        plain_hex(bytes).len() == 2 * bytes.len(),
        bytes.len() > 0 ==> colon_hex(bytes).len() == 3 * bytes.len() - 1,
    decreases bytes.len(),
{
    if bytes.len() > 0 {
        lemma_hex_len(bytes.drop_last());
    }
}

/// Law: when a dialer sets up a connection to a listener whose fingerprint it expects, and
/// the listener sets up with that fingerprint and the dialer's ICE username fragment, each
/// side's stand-in for the other's session description carries exactly the ICE username
/// fragment and password that the other side's engine uses, and both gather candidates on
/// the same network type.
pub proof fn lemma_dial_and_listen_agree(
    dial: DialParameters,
    listen: ListenParameters,
    addr: SocketAddress,
    fingerprint: FingerprintView,
    dialer_ufrag: Seq<char>,
)
    requires
        is_dial_setup(dial, addr, fingerprint, dialer_ufrag),
        is_listen_setup(listen, addr, fingerprint, dial.settings@.ice_username_fragment),
    ensures
        Some(dial.remote_description@) == rendered_description(
            SERVER_SESSION_DESCRIPTION@,
            addr.ip_version().name(),
            addr.ip_text(),
            addr.port,
            fingerprint.algorithm,
            fingerprint.value,
            listen.settings@.ice_username_fragment,
            listen.settings@.ice_password,
        ),
        Some(listen.remote_description@) == rendered_description(
            CLIENT_SESSION_DESCRIPTION@,
            addr.ip_version().name(),
            addr.ip_text(),
            addr.port,
            placeholder_fingerprint().algorithm,
            placeholder_fingerprint().value,
            dial.settings@.ice_username_fragment,
            dial.settings@.ice_password,
        ),
        dial.settings@.network_types == listen.settings@.network_types,
{
}

/// Both sides gather candidates on exactly the network type of the address's IP version.
pub proof fn lemma_network_type_matches_address(ufrag: Seq<char>, addr: SocketAddress)
    ensures
        engine_settings(ufrag, addr.is_v4()).network_types == seq![
            network_type_for(addr.is_v4()),
        ],
        listener_settings(ufrag, addr.is_v4()).network_types == seq![
            network_type_for(addr.is_v4()),
        ],
        (network_type_for(addr.is_v4()) == NetworkType::Udp4) == (addr.ip_version()
            == IpVersion::IP4),
{
}

/// The value of an upper-case hexadecimal digit.
pub open spec fn hex_value(c: char) -> int {
    if '0' <= c <= '9' {
        c as int - '0' as int
    } else {
        c as int - 'A' as int + 10
    }
}

/// Each hexadecimal digit has its position as value.
proof fn lemma_hex_digit_value(i: int)
    requires
        0 <= i < 16,
    ensures
        hex_value(hex_digits()[i]) == i,
        hex_digits()[i] != ':',
{
    let d = hex_digits();
    assert(d[0] == '0' && d[1] == '1' && d[2] == '2' && d[3] == '3');
    assert(d[4] == '4' && d[5] == '5' && d[6] == '6' && d[7] == '7');
    assert(d[8] == '8' && d[9] == '9' && d[10] == 'A' && d[11] == 'B');
    assert(d[12] == 'C' && d[13] == 'D' && d[14] == 'E' && d[15] == 'F');
}

/// A byte is determined by its hexadecimal text.
proof fn lemma_byte_hex_injective(a: u8, b: u8)
    requires
        byte_hex(a) == byte_hex(b),
    ensures
        a == b,
{
    assert(byte_hex(a)[0] == byte_hex(b)[0]);
    assert(byte_hex(a)[1] == byte_hex(b)[1]);
    lemma_hex_digit_value((a / 16) as int);
    lemma_hex_digit_value((b / 16) as int);
    lemma_hex_digit_value((a % 16) as int);
    lemma_hex_digit_value((b % 16) as int);
}

/// Law: fingerprints made from different bytes have different values; the bytes are
/// determined by the colon-separated hexadecimal text.
pub proof fn lemma_from_bytes_injective(a: Seq<u8>, b: Seq<u8>)
    requires
        colon_hex(a) == colon_hex(b),
    ensures
        a == b,
    decreases a.len(),
{
    lemma_hex_len(a);
    lemma_hex_len(b);
    if a.len() == 0 || b.len() == 0 {
        assert(a.len() == 0 && b.len() == 0);
        assert(a =~= b);
    } else {
        assert(a.len() == b.len());
        if a.len() == 1 {
            lemma_byte_hex_injective(a[0], b[0]);
            assert(a =~= b);
        } else {
            let n = colon_hex(a).len();
            let pa = colon_hex(a.drop_last());
            let pb = colon_hex(b.drop_last());
            lemma_hex_len(a.drop_last());
            lemma_hex_len(b.drop_last());
            assert(colon_hex(a).subrange(0, pa.len() as int) =~= pa);
            assert(colon_hex(b).subrange(0, pb.len() as int) =~= pb);
            assert(colon_hex(a).subrange(n - 2, n as int) =~= byte_hex(a.last()));
            assert(colon_hex(b).subrange(n - 2, n as int) =~= byte_hex(b.last()));
            lemma_from_bytes_injective(a.drop_last(), b.drop_last());
            lemma_byte_hex_injective(a.last(), b.last());
            assert(a =~= a.drop_last().push(a.last()));
            assert(b =~= b.drop_last().push(b.last()));
        }
    }
}

/// Law: the plain hexadecimal text of some bytes (what the ICE username fragment of their
/// fingerprint is the lower-case form of) holds only hexadecimal digits, so no colon.
pub proof fn lemma_plain_hex_digits(bytes: Seq<u8>)
    ensures
        forall|k: int|
            0 <= k < plain_hex(bytes).len() ==> hex_digits().contains(#[trigger] plain_hex(bytes)[k])
                && plain_hex(bytes)[k] != ':',
    decreases bytes.len(),
{
    if bytes.len() > 0 {
        lemma_plain_hex_digits(bytes.drop_last());
        let b = bytes.last();
        lemma_hex_digit_value((b / 16) as int);
        lemma_hex_digit_value((b % 16) as int);
        let front = plain_hex(bytes.drop_last());
        assert forall|k: int| 0 <= k < plain_hex(bytes).len() implies hex_digits().contains(
            #[trigger] plain_hex(bytes)[k],
        ) && plain_hex(bytes)[k] != ':' by {
            if k < front.len() {
                assert(plain_hex(bytes)[k] == front[k]);
            } else if k == front.len() {
                assert(plain_hex(bytes)[k] == hex_digits()[(b / 16) as int]);
            } else {
                assert(plain_hex(bytes)[k] == hex_digits()[(b % 16) as int]);
            }
        }
    }
}

/// The names of the fields that a session description template may use.
pub open spec fn description_fields() -> Seq<Seq<char>> {
    seq![
        seq!['i', 'p', '_', 'v', 'e', 'r', 's', 'i', 'o', 'n'],
        seq!['t', 'a', 'r', 'g', 'e', 't', '_', 'i', 'p'],
        seq!['t', 'a', 'r', 'g', 'e', 't', '_', 'p', 'o', 'r', 't'],
        seq![
            'f', 'i', 'n', 'g', 'e', 'r', 'p', 'r', 'i', 'n', 't', '_', 'a', 'l', 'g', 'o', 'r',
            'i', 't', 'h', 'm',
        ],
        seq![
            'f', 'i', 'n', 'g', 'e', 'r', 'p', 'r', 'i', 'n', 't', '_', 'v', 'a', 'l', 'u', 'e',
        ],
        seq!['u', 'f', 'r', 'a', 'g'],
        seq!['p', 'w', 'd'],
    ]
}

/// At `i`, `t` holds the tag `{name}`.
pub open spec fn tag_at(t: Seq<char>, i: int, name: Seq<char>) -> bool {
    &&& 0 <= i
    &&& i + name.len() + 2 <= t.len()
    &&& t.subrange(i + 1, i + 1 + name.len()) == name
    &&& t[i + 1 + name.len()] == '}'
}

/// A template made of plain text and tags `{field}` naming one of the
/// [`description_fields`]: every `{` opens such a tag, and every `\` is followed by a
/// character other than `{`.
pub open spec fn admissible_template(t: Seq<char>) -> bool {
    &&& forall|i: int|
        0 <= i < t.len() && #[trigger] t[i] == '{' ==> exists|k: int|
            0 <= k < description_fields().len() && tag_at(t, i, #[trigger] description_fields()[k])
    &&& forall|i: int| 0 <= i < t.len() && #[trigger] t[i] == '\\' ==> i + 1 < t.len() && t[i + 1] != '{'
}

/// [`SERVER_SESSION_DESCRIPTION`] is an admissible template.
pub proof fn lemma_server_description_admissible()
    ensures
        admissible_template(SERVER_SESSION_DESCRIPTION@),
{
    reveal_strlit("v=0
o=- 0 0 IN {ip_version} {target_ip}
s=-
t=0 0
a=ice-lite
m=application {target_port} UDP/DTLS/SCTP webrtc-datachannel
c=IN {ip_version} {target_ip}
a=mid:0
a=ice-options:ice2
a=ice-ufrag:{ufrag}
a=ice-pwd:{pwd}
a=fingerprint:{fingerprint_algorithm} {fingerprint_value}
a=setup:passive
a=sctp-port:5000
a=max-message-size:16384
a=candidate:1 1 UDP 1 {target_ip} {target_port} typ host
");
    let t = SERVER_SESSION_DESCRIPTION@;
    let f = description_fields();
    assert forall|i: int| 0 <= i < t.len() && #[trigger] t[i] == '{' implies exists|k: int|
        0 <= k < f.len() && tag_at(t, i, #[trigger] f[k]) by {
        if i == 15 {
            assert(t.subrange(16, 26) =~= f[0]);
            assert(tag_at(t, 15, f[0]));
        } else if i == 28 {
            assert(t.subrange(29, 38) =~= f[1]);
            assert(tag_at(t, 28, f[1]));
        } else if i == 75 {
            assert(t.subrange(76, 87) =~= f[2]);
            assert(tag_at(t, 75, f[2]));
        } else if i == 127 {
            assert(t.subrange(128, 138) =~= f[0]);
            assert(tag_at(t, 127, f[0]));
        } else if i == 140 {
            assert(t.subrange(141, 150) =~= f[1]);
            assert(tag_at(t, 140, f[1]));
        } else if i == 191 {
            assert(t.subrange(192, 197) =~= f[5]);
            assert(tag_at(t, 191, f[5]));
        } else if i == 209 {
            assert(t.subrange(210, 213) =~= f[6]);
            assert(tag_at(t, 209, f[6]));
        } else if i == 229 {
            assert(t.subrange(230, 251) =~= f[3]);
            assert(tag_at(t, 229, f[3]));
        } else if i == 253 {
            assert(t.subrange(254, 271) =~= f[4]);
            assert(tag_at(t, 253, f[4]));
        } else if i == 353 {
            assert(t.subrange(354, 363) =~= f[1]);
            assert(tag_at(t, 353, f[1]));
        } else if i == 365 {
            assert(t.subrange(366, 377) =~= f[2]);
            assert(tag_at(t, 365, f[2]));
        }
    }
    assert forall|i: int| 0 <= i < t.len() && #[trigger] t[i] == '\\' implies i + 1 < t.len() && t[i
        + 1] != '{' by {}
}

/// [`CLIENT_SESSION_DESCRIPTION`] is an admissible template.
pub proof fn lemma_client_description_admissible()
    ensures
        admissible_template(CLIENT_SESSION_DESCRIPTION@),
{
    reveal_strlit("v=0
o=- 0 0 IN {ip_version} {target_ip}
s=-
c=IN {ip_version} {target_ip}
t=0 0

m=application {target_port} UDP/DTLS/SCTP webrtc-datachannel
a=mid:0
a=ice-options:ice2
a=ice-ufrag:{ufrag}
a=ice-pwd:{pwd}
a=fingerprint:{fingerprint_algorithm} {fingerprint_value}
a=setup:actpass
a=sctp-port:5000
a=max-message-size:16384
");
    let t = CLIENT_SESSION_DESCRIPTION@;
    let f = description_fields();
    assert forall|i: int| 0 <= i < t.len() && #[trigger] t[i] == '{' implies exists|k: int|
        0 <= k < f.len() && tag_at(t, i, #[trigger] f[k]) by {
        if i == 15 {
            assert(t.subrange(16, 26) =~= f[0]);
            assert(tag_at(t, 15, f[0]));
        } else if i == 28 {
            assert(t.subrange(29, 38) =~= f[1]);
            assert(tag_at(t, 28, f[1]));
        } else if i == 49 {
            assert(t.subrange(50, 60) =~= f[0]);
            assert(tag_at(t, 49, f[0]));
        } else if i == 62 {
            assert(t.subrange(63, 72) =~= f[1]);
            assert(tag_at(t, 62, f[1]));
        } else if i == 95 {
            assert(t.subrange(96, 107) =~= f[2]);
            assert(tag_at(t, 95, f[2]));
        } else if i == 181 {
            assert(t.subrange(182, 187) =~= f[5]);
            assert(tag_at(t, 181, f[5]));
        } else if i == 199 {
            assert(t.subrange(200, 203) =~= f[6]);
            assert(tag_at(t, 199, f[6]));
        } else if i == 219 {
            assert(t.subrange(220, 241) =~= f[3]);
            assert(tag_at(t, 219, f[3]));
        } else if i == 243 {
            assert(t.subrange(244, 261) =~= f[4]);
            assert(tag_at(t, 243, f[4]));
        }
    }
    assert forall|i: int| 0 <= i < t.len() && #[trigger] t[i] == '\\' implies i + 1 < t.len() && t[i
        + 1] != '{' by {}
}

/// Every character is ASCII.
pub open spec fn all_ascii(s: Seq<char>) -> bool {
    forall|i: int| 0 <= i < s.len() ==> (#[trigger] s[i] as u32) < 128
}

/// An ASCII upper-case letter as its lower-case letter; any other character as it is.
pub open spec fn ascii_lower(c: char) -> char {
    if 'A' <= c <= 'Z' {
        ((c as u32) + 32) as char
    } else {
        c
    }
}

/// Each character through [`ascii_lower`].
pub open spec fn ascii_lowercase(s: Seq<char>) -> Seq<char> {
    s.map_values(|c: char| ascii_lower(c))
}

/// The lower-case hexadecimal digits, in order of value.
pub open spec fn lower_hex_digits() -> Seq<char> {
    seq!['0', '1', '2', '3', '4', '5', '6', '7', '8', '9', 'a', 'b', 'c', 'd', 'e', 'f']
}

/// The bytes as lower-case hexadecimal pairs, with nothing between them.
pub open spec fn lower_plain_hex(bytes: Seq<u8>) -> Seq<char>
    decreases bytes.len(),
{
    if bytes.len() == 0 {
        Seq::empty()
    } else {
        lower_plain_hex(bytes.drop_last()) + seq![
            lower_hex_digits()[(bytes.last() / 16) as int],
            lower_hex_digits()[(bytes.last() % 16) as int],
        ]
    }
}

/// Each upper-case hexadecimal digit is ASCII and lowers to the lower-case digit of the
/// same value.
proof fn lemma_hex_digit_lower(i: int)
    requires
        0 <= i < 16,
    ensures
        (hex_digits()[i] as u32) < 128,
        ascii_lower(hex_digits()[i]) == lower_hex_digits()[i],
        lower_hex_digits()[i] != ':',
{
    let d = hex_digits();
    let l = lower_hex_digits();
    assert(d[0] == '0' && d[1] == '1' && d[2] == '2' && d[3] == '3');
    assert(d[4] == '4' && d[5] == '5' && d[6] == '6' && d[7] == '7');
    assert(d[8] == '8' && d[9] == '9' && d[10] == 'A' && d[11] == 'B');
    assert(d[12] == 'C' && d[13] == 'D' && d[14] == 'E' && d[15] == 'F');
    assert(l[0] == '0' && l[1] == '1' && l[2] == '2' && l[3] == '3');
    assert(l[4] == '4' && l[5] == '5' && l[6] == '6' && l[7] == '7');
    assert(l[8] == '8' && l[9] == '9' && l[10] == 'a' && l[11] == 'b');
    assert(l[12] == 'c' && l[13] == 'd' && l[14] == 'e' && l[15] == 'f');
}

/// Law: the ICE username fragment of a fingerprint made from bytes is their lower-case
/// hexadecimal text: 2 digits per byte, only `0`-`9` and `a`-`f`, no colon. (The plain
/// hexadecimal text that [`Fingerprint::to_ufrag`] lower-cases is ASCII, see
/// [`lemma_ufrag_of_bytes`].)
pub proof fn lemma_ufrag_of_bytes_is_lower_hex(bytes: Seq<u8>)
    ensures
        all_ascii(without_colons(colon_hex(bytes))),
        ascii_lowercase(without_colons(colon_hex(bytes))) == lower_plain_hex(bytes),
        lower_plain_hex(bytes).len() == 2 * bytes.len(),
        forall|k: int|
            0 <= k < lower_plain_hex(bytes).len() ==> lower_hex_digits().contains(
                #[trigger] lower_plain_hex(bytes)[k],
            ) && lower_plain_hex(bytes)[k] != ':',
    decreases bytes.len(),
{
    lemma_ufrag_of_bytes(bytes);
    if bytes.len() > 0 {
        lemma_ufrag_of_bytes_is_lower_hex(bytes.drop_last());
        lemma_ufrag_of_bytes(bytes.drop_last());
        let b = bytes.last();
        let hi = (b / 16) as int;
        let lo = (b % 16) as int;
        lemma_hex_digit_lower(hi);
        lemma_hex_digit_lower(lo);
        let front = plain_hex(bytes.drop_last());
        let last = byte_hex(b);
        assert(plain_hex(bytes) == front + last);
        assert forall|i: int| 0 <= i < plain_hex(bytes).len() implies (
        #[trigger] plain_hex(bytes)[i] as u32) < 128 by {
            if i < front.len() {
                assert(plain_hex(bytes)[i] == front[i]);
            }
        }
        assert(ascii_lowercase(plain_hex(bytes)) =~= ascii_lowercase(front) + seq![
            lower_hex_digits()[hi],
            lower_hex_digits()[lo],
        ]);
        let lower = lower_plain_hex(bytes);
        let lfront = lower_plain_hex(bytes.drop_last());
        assert forall|k: int| 0 <= k < lower.len() implies lower_hex_digits().contains(
            #[trigger] lower[k],
        ) && lower[k] != ':' by {
            if k < lfront.len() {
                assert(lower[k] == lfront[k]);
            } else if k == lfront.len() {
                assert(lower[k] == lower_hex_digits()[hi]);
            } else {
                assert(lower[k] == lower_hex_digits()[lo]);
            }
        }
    } else {
        assert(ascii_lowercase(plain_hex(bytes)) =~= Seq::<char>::empty());
    }
}

// ----------------------------------------------------------------------------------------
// Laws of the engine settings and addresses
// ----------------------------------------------------------------------------------------

/// Law: whatever the ICE username fragment and the IP version, the engine settings of a
/// connection use that fragment as ICE username fragment and password, detach data
/// channels, act as a full ICE agent that checks the remote certificate and leaves the
/// answering DTLS role to the engine; the IP version decides the network type alone.
pub proof fn lemma_engine_settings_fixed(ufrag: Seq<char>, is_ipv4: bool)
    ensures
        engine_settings(ufrag, is_ipv4).ice_username_fragment == ufrag,
        engine_settings(ufrag, is_ipv4).ice_password == ufrag,
        engine_settings(ufrag, is_ipv4).detach_data_channels,
        !engine_settings(ufrag, is_ipv4).lite,
        !engine_settings(ufrag, is_ipv4).disable_certificate_fingerprint_verification,
        engine_settings(ufrag, is_ipv4).answering_dtls_role == DtlsRole::Unspecified,
        engine_settings(ufrag, is_ipv4).network_types == seq![
            if is_ipv4 {
                NetworkType::Udp4
            } else {
                NetworkType::Udp6
            },
        ],
        ({
            let v4 = engine_settings(ufrag, true);
            let v6 = engine_settings(ufrag, false);
            v4 == EngineSettingsView { network_types: seq![NetworkType::Udp4], ..v6 }
        }),
{
}

/// Law: the engine of a dialer, set up by [`dial_parameters`] or
/// [`connect_parameters`], uses its own ICE username fragment as username fragment and
/// password, detaches data channels, is a full ICE agent (not lite) that checks the
/// remote certificate, leaves the answering DTLS role to the engine, and gathers
/// candidates on UDP over the address's IP version only.
pub proof fn lemma_dialer_settings(
    p: DialParameters,
    addr: SocketAddress,
    remote_fingerprint: FingerprintView,
    ufrag: Seq<char>,
)
    requires
        is_dial_setup(p, addr, remote_fingerprint, ufrag),
    ensures
        p.settings.ice_username_fragment@ == ufrag,
        p.settings.ice_password@ == ufrag,
        p.settings.detach_data_channels,
        !p.settings.lite,
        !p.settings.disable_certificate_fingerprint_verification,
        p.settings.answering_dtls_role == DtlsRole::Unspecified,
        p.settings.network_types@ == seq![
            if addr.ip is V4 {
                NetworkType::Udp4
            } else {
                NetworkType::Udp6
            },
        ],
{
}

/// Law: the engine of a listener, set up by [`listen_parameters`], uses the ICE
/// credentials its own fingerprint stands for, detaches data channels, is an ICE lite
/// agent that does not check the remote certificate, answers as DTLS server, and gathers
/// candidates on UDP over the address's IP version only, for every address, fingerprint
/// and remote username fragment.
pub proof fn lemma_listener_settings(
    p: ListenParameters,
    addr: SocketAddress,
    our_fingerprint: FingerprintView,
    remote_ufrag: Seq<char>,
)
    requires
        is_listen_setup(p, addr, our_fingerprint, remote_ufrag),
    ensures
        p.settings.ice_username_fragment@ == lowercase_of(without_colons(our_fingerprint.value)),
        p.settings.ice_password@ == lowercase_of(without_colons(our_fingerprint.value)),
        p.settings.detach_data_channels,
        p.settings.lite,
        p.settings.disable_certificate_fingerprint_verification,
        p.settings.answering_dtls_role == DtlsRole::Server,
        p.settings.network_types@ == seq![
            if addr.ip is V4 {
                NetworkType::Udp4
            } else {
                NetworkType::Udp6
            },
        ],
{
}

/// Law: a dialer and a listener set up for the same address have engines that agree on
/// every setting but three: the listener alone is an ICE lite agent, skips the check of
/// the remote certificate and answers as DTLS server. Both detach data channels and gather
/// candidates on the same network type.
pub proof fn lemma_dialer_and_listener_settings_differ_in_role_only(
    dial: DialParameters,
    listen: ListenParameters,
    addr: SocketAddress,
    fingerprint: FingerprintView,
    remote_ufrag: Seq<char>,
)
    requires
        is_dial_setup(dial, addr, fingerprint, fingerprint.ufrag()),
        is_listen_setup(listen, addr, fingerprint, remote_ufrag),
    ensures
        listen.settings@ == (EngineSettingsView {
            lite: true,
            disable_certificate_fingerprint_verification: true,
            answering_dtls_role: DtlsRole::Server,
            ..dial.settings@
        }),
        dial.settings.detach_data_channels && listen.settings.detach_data_channels,
        !dial.settings.lite && listen.settings.lite,
        dial.settings.answering_dtls_role == DtlsRole::Unspecified,
        listen.settings.answering_dtls_role == DtlsRole::Server,
{
    lemma_dialer_settings(dial, addr, fingerprint, fingerprint.ufrag());
    lemma_listener_settings(listen, addr, fingerprint, remote_ufrag);
}

/// Law: the IP text of a socket address is the whole text of its IP address, whichever
/// the version, and the version is named `IP4` for an IPv4 and `IP6` for an IPv6 address.
pub proof fn lemma_ip_text_is_whole_address(text: String, port: u16)
    ensures
        (SocketAddress { ip: IpAddress::V4(text), port }).ip_text() == text@,
        (SocketAddress { ip: IpAddress::V6(text), port }).ip_text() == text@,
        (SocketAddress { ip: IpAddress::V4(text), port }).ip_version().name() == seq![
            'I',
            'P',
            '4',
        ],
        (SocketAddress { ip: IpAddress::V6(text), port }).ip_version().name() == seq![
            'I',
            'P',
            '6',
        ],
{
}

/// Law: a session description is rendered with the whole text of the peer's IP address
/// as `target_ip`, its port as `target_port`, its IP version's name as `ip_version`, the
/// fingerprint's algorithm and value, and `ufrag` as both username fragment and password.
pub proof fn lemma_description_uses_whole_address(
    template: Seq<char>,
    text: String,
    port: u16,
    fingerprint: FingerprintView,
    ufrag: Seq<char>,
)
    ensures
        description_for(
            template,
            SocketAddress { ip: IpAddress::V4(text), port },
            fingerprint,
            ufrag,
        ) == rendered_description(
            template,
            seq!['I', 'P', '4'],
            text@,
            port,
            fingerprint.algorithm,
            fingerprint.value,
            ufrag,
            ufrag,
        ),
        description_for(
            template,
            SocketAddress { ip: IpAddress::V6(text), port },
            fingerprint,
            ufrag,
        ) == rendered_description(
            template,
            seq!['I', 'P', '6'],
            text@,
            port,
            fingerprint.algorithm,
            fingerprint.value,
            ufrag,
            ufrag,
        ),
{
}

} // verus!
