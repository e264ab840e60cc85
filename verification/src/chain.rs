use vstd::prelude::*;
use crate::decimal::DecimalBytes;
use crate::duration::StdDuration;
use crate::ratio::TrustLevel;
use crate::text::owned;
use crate::decimal::{decimal_from_str, parse_decimal};
use crate::duration::{ProtoDuration, spec_duration_from_proto, proto_duration_in_range, duration_from_proto};
use crate::hexcodec::{spec_hex_decode, hex_decode};
use crate::numeric::{spec_parse_u64, parse_u64};
use crate::ratio::{spec_parse_ratio, parse_trust_level};
use vstd::utf8::encode_utf8;
use crate::decimal::{decimal_display, decimal_to_text};
use crate::duration::{spec_duration_to_proto, duration_to_proto, lemma_duration_round_trip};
use crate::hexcodec::{spec_hex_encode, hex_encode, lemma_hex_round_trip, lemma_hex_encode_len};
use crate::numeric::{decimal_text, u64_to_decimal, lemma_u64_text_round_trip};
use crate::ratio::{spec_ratio_text, trust_level_text, lemma_trust_level_text_round_trip};

verus! {

/// Identifiers of the IBC objects that make up an established connection
/// between the solo machine and a chain.
#[derive(Debug, Clone)]
pub struct ChainConnectionDetails {
    pub solo_machine_client_id: String,
    pub tendermint_client_id: String,
    pub solo_machine_connection_id: String,
    pub tendermint_connection_id: String,
    pub solo_machine_channel_id: String,
    pub tendermint_channel_id: String,
}

impl ChainConnectionDetails {
    /// A copy of the connection details.
    pub fn duplicate(&self) -> (r: ChainConnectionDetails)
        ensures
            r == *self,
    {
        ChainConnectionDetails {
            solo_machine_client_id: self.solo_machine_client_id.clone(),
            tendermint_client_id: self.tendermint_client_id.clone(),
            solo_machine_connection_id: self.solo_machine_connection_id.clone(),
            tendermint_connection_id: self.tendermint_connection_id.clone(),
            solo_machine_channel_id: self.solo_machine_channel_id.clone(),
            tendermint_channel_id: self.tendermint_channel_id.clone(),
        }
    }
}

/// Connection details as the chain service's query answers them.
#[derive(Debug, Clone)]
pub struct ConnectionDetails {
    pub solo_machine_client_id: String,
    pub tendermint_client_id: String,
    pub solo_machine_connection_id: String,
    pub tendermint_connection_id: String,
    pub solo_machine_channel_id: String,
    pub tendermint_channel_id: String,
}

impl<'a> From<&'a ChainConnectionDetails> for ConnectionDetails {
    fn from(value: &'a ChainConnectionDetails) -> (r: ConnectionDetails) {
        ConnectionDetails {
            solo_machine_client_id: value.solo_machine_client_id.clone(),
            tendermint_client_id: value.tendermint_client_id.clone(),
            solo_machine_connection_id: value.solo_machine_connection_id.clone(),
            tendermint_connection_id: value.tendermint_connection_id.clone(),
            solo_machine_channel_id: value.solo_machine_channel_id.clone(),
            tendermint_channel_id: value.tendermint_channel_id.clone(),
        }
    }
}

impl<'a> vstd::std_specs::convert::FromSpecImpl<&'a ChainConnectionDetails> for ConnectionDetails {
    open spec fn obeys_from_spec() -> bool {
        true
    }

    open spec fn from_spec(value: &'a ChainConnectionDetails) -> ConnectionDetails {
        ConnectionDetails {
            solo_machine_client_id: value.solo_machine_client_id,
            tendermint_client_id: value.tendermint_client_id,
            solo_machine_connection_id: value.solo_machine_connection_id,
            tendermint_connection_id: value.tendermint_connection_id,
            solo_machine_channel_id: value.solo_machine_channel_id,
            tendermint_channel_id: value.tendermint_channel_id,
        }
    }
}

/// Fee settings of transactions sent to a chain.
#[derive(Debug, Clone)]
pub struct Fee {
    pub amount: DecimalBytes,
    pub denom: String,
    pub gas_limit: u64,
}

/// The serialised decimal 1000 (scale zero), the default fee amount.
pub open spec fn default_fee_amount() -> Seq<u8> {
    seq![0u8, 0u8, 0u8, 0u8, 0xe8u8, 0x03u8, 0u8, 0u8, 0u8, 0u8, 0u8, 0u8, 0u8, 0u8, 0u8, 0u8]
}

pub open spec fn default_fee_denom() -> Seq<char> {
    seq!['s', 't', 'a', 'k', 'e']
}

pub open spec fn default_gas_limit() -> u64 {
    300000
}

fn default_fee_amount_bytes() -> (r: DecimalBytes)
    ensures
        r.bytes@ == default_fee_amount(),
{
    let r = DecimalBytes { bytes: [0u8, 0u8, 0u8, 0u8, 0xe8u8, 0x03u8, 0u8, 0u8, 0u8, 0u8, 0u8, 0u8, 0u8, 0u8, 0u8, 0u8] };
    assert(r.bytes@ =~= default_fee_amount());
    r
}

impl Default for Fee {
    /// A fee of 1000 `stake` with a gas limit of 300000.
    fn default() -> (r: Fee)
        ensures
            r.amount.bytes@ == default_fee_amount(),
            r.denom@ == default_fee_denom(),
            r.gas_limit == default_gas_limit(),
    {
        proof {
            reveal_strlit("stake");
        }
        let denom = owned("stake");
        assert(denom@ =~= default_fee_denom());
        Fee { amount: default_fee_amount_bytes(), denom, gas_limit: 300000 }
    }
}

/// Everything the solo machine keeps about a chain it talks to.
#[derive(Debug, Clone)]
pub struct Chain {
    pub id: String,
    pub node_id: String,
    pub grpc_addr: String,
    pub rpc_addr: String,
    pub account_prefix: String,
    pub fee: Fee,
    pub trust_level: TrustLevel,
    pub trusting_period: StdDuration,
    pub max_clock_drift: StdDuration,
    pub rpc_timeout: StdDuration,
    pub diversifier: String,
    pub consensus_timestamp: u64,
    pub sequence: u64,
    pub packet_sequence: u64,
    pub port_id: String,
    pub trusted_height: u64,
    pub trusted_hash: Option<[u8; 32]>,
    pub connection_details: Option<ChainConnectionDetails>,
}

impl Chain {
    /// Moves the solo machine's signature sequence one step on.
    pub fn increment_sequence(&mut self)
        requires
            old(self).sequence < u64::MAX,
        ensures
            *final(self) == (Chain { sequence: (old(self).sequence + 1) as u64, ..*old(self) }),
    {
        self.sequence = self.sequence + 1;
    }

    /// Moves the packet sequence one step on.
    pub fn increment_packet_sequence(&mut self)
        requires
            old(self).packet_sequence < u64::MAX,
        ensures
            *final(self) == (Chain {
                packet_sequence: (old(self).packet_sequence + 1) as u64,
                ..*old(self)
            }),
    {
        self.packet_sequence = self.packet_sequence + 1;
    }

    /// Records the identifiers of the established connection.
    pub fn add_connection_details(&mut self, connection_details: &ChainConnectionDetails)
        ensures
            *final(self) == (Chain { connection_details: Some(*connection_details), ..*old(self) }),
    {
        self.connection_details = Some(connection_details.duplicate());
    }
}

/// Fee settings of a request; absent values take their defaults.
#[derive(Debug, Clone)]
pub struct FeeConfig {
    pub fee_amount: Option<String>,
    pub fee_denom: Option<String>,
    pub gas_limit: Option<String>,
}

/// A request to add a chain; absent values take their defaults.
#[derive(Debug, Clone)]
pub struct AddChainRequest {
    pub grpc_addr: Option<String>,
    pub rpc_addr: Option<String>,
    pub account_prefix: Option<String>,
    pub fee_config: Option<FeeConfig>,
    pub trust_level: Option<String>,
    pub trusting_period: Option<ProtoDuration>,
    pub max_clock_drift: Option<ProtoDuration>,
    pub rpc_timeout: Option<ProtoDuration>,
    pub diversifier: Option<String>,
    pub port_id: Option<String>,
    pub trusted_height: Option<u32>,
    pub trusted_hash: Option<String>,
}

/// The settings of a chain to add, with every default applied.
#[derive(Debug, Clone)]
pub struct ChainConfig {
    pub grpc_addr: String,
    pub rpc_addr: String,
    pub account_prefix: String,
    pub fee: Fee,
    pub trust_level: TrustLevel,
    pub trusting_period: StdDuration,
    pub max_clock_drift: StdDuration,
    pub rpc_timeout: StdDuration,
    pub diversifier: String,
    pub port_id: String,
    pub trusted_height: u64,
    pub trusted_hash: Option<[u8; 32]>,
}

/// Why a request to add a chain is refused.
#[derive(Debug, Clone, Copy, PartialEq, Eq, Structural)]
pub enum ChainConfigError {
    MissingConfig,
    InvalidFeeAmount,
    InvalidGasLimit,
    InvalidTrustLevel,
    NegativeTrustingPeriod,
    NegativeMaxClockDrift,
    NegativeRpcTimeout,
    /// The port id is no valid ICS-24 port identifier.
    InvalidPortId,
    /// The fee denomination is no valid ICS-24 identifier.
    InvalidFeeDenom,
    MissingTrustedHeight,
    MissingTrustedHash,
    EmptyTrustedHash,
    InvalidTrustedHashHex,
    InvalidTrustedHashLength,
}

pub open spec fn opt_text(o: Option<String>, dflt: Seq<char>) -> Seq<char> {
    match o {
        Some(s) => s@,
        None => dflt,
    }
}

pub open spec fn default_trusting_period() -> StdDuration {
    StdDuration { secs: 1209600u64, nanos: 0u32 }
}

pub open spec fn default_max_clock_drift() -> StdDuration {
    StdDuration { secs: 3, nanos: 0 }
}

pub open spec fn default_rpc_timeout() -> StdDuration {
    StdDuration { secs: 60, nanos: 0 }
}

/// A duration of the request, or its default; `None` when it is negative.
pub open spec fn spec_request_duration(d: Option<ProtoDuration>, dflt: StdDuration) -> Option<
    StdDuration,
> {
    match d {
        None => Some(dflt),
        Some(p) => match spec_duration_from_proto(p) {
            Ok(x) => Some(x),
            Err(_) => None,
        },
    }
}

/// The durations of the request can be converted without overflow.
pub open spec fn request_durations_in_range(req: AddChainRequest) -> bool {
    &&& (req.trusting_period matches Some(p) ==> proto_duration_in_range(p))
    &&& (req.max_clock_drift matches Some(p) ==> proto_duration_in_range(p))
    &&& (req.rpc_timeout matches Some(p) ==> proto_duration_in_range(p))
}

pub open spec fn fee_amount_text(f: Option<FeeConfig>) -> Option<Seq<char>> {
    match f {
        Some(c) => match c.fee_amount {
            Some(s) => Some(s@),
            None => None,
        },
        None => None,
    }
}

pub open spec fn fee_denom_text(f: Option<FeeConfig>) -> Seq<char> {
    match f {
        Some(c) => opt_text(c.fee_denom, default_fee_denom()),
        None => default_fee_denom(),
    }
}

pub open spec fn gas_limit_text(f: Option<FeeConfig>) -> Option<Seq<char>> {
    match f {
        Some(c) => match c.gas_limit {
            Some(s) => Some(s@),
            None => None,
        },
        None => None,
    }
}

/// The fee amount of the request (the default when absent); `None` when the
/// text is not a decimal.
pub open spec fn spec_fee_amount(f: Option<FeeConfig>) -> Option<Seq<u8>> {
    match fee_amount_text(f) {
        None => Some(default_fee_amount()),
        Some(t) => decimal_from_str(t),
    }
}

/// The gas limit of the request (the default when absent); `None` when the
/// text is not a `u64`.
pub open spec fn spec_gas_limit(f: Option<FeeConfig>) -> Option<u64> {
    match gas_limit_text(f) {
        None => Some(default_gas_limit()),
        Some(t) => spec_parse_u64(t),
    }
}

pub open spec fn default_trust_level_text() -> Seq<char> {
    seq!['1', '/', '3']
}

/// The trusted hash of a request: absent or empty means none; otherwise it
/// must be the hex text of 32 bytes.
pub open spec fn spec_trusted_hash(h: Option<String>) -> Result<Option<Seq<u8>>, ChainConfigError> {
    match h {
        None => Ok(None),
        Some(t) => if t@.len() == 0 {
            Ok(None)
        } else {
            match spec_hex_decode(encode_utf8(t@)) {
                None => Err(ChainConfigError::InvalidTrustedHashHex),
                Some(b) => if b.len() != 32 {
                    Err(ChainConfigError::InvalidTrustedHashLength)
                } else {
                    Ok(Some(b))
                },
            }
        },
    }
}

/// A character that ICS-24 allows in an identifier: an ASCII letter or digit,
/// or one of `.`, `_`, `+`, `-`, `#`, `[`, `]`, `<`, `>`.
pub open spec fn is_identifier_char(c: char) -> bool {
    ||| ('a' <= c && c <= 'z')
    ||| ('A' <= c && c <= 'Z')
    ||| ('0' <= c && c <= '9')
    ||| c == '.' || c == '_' || c == '+' || c == '-'
    ||| c == '#' || c == '[' || c == ']' || c == '<' || c == '>'
}

/// Every character of `s` is allowed in an ICS-24 identifier.
pub open spec fn identifier_chars(s: Seq<char>) -> bool {
    forall|i: int| 0 <= i < s.len() ==> #[trigger] is_identifier_char(s[i])
}

/// An ICS-24 port identifier: between 2 and 128 allowed characters.
pub open spec fn is_port_id(s: Seq<char>) -> bool {
    2 <= s.len() <= 128 && identifier_chars(s)
}

/// An ICS-24 identifier: at least one allowed character.
pub open spec fn is_identifier(s: Seq<char>) -> bool {
    s.len() >= 1 && identifier_chars(s)
}

fn identifier_char(c: char) -> (r: bool)
    ensures
        r == is_identifier_char(c),
{
    ('a' <= c && c <= 'z') || ('A' <= c && c <= 'Z') || ('0' <= c && c <= '9') || c == '.' || c
        == '_' || c == '+' || c == '-' || c == '#' || c == '[' || c == ']' || c == '<' || c == '>'
}

/// Whether every character of `s` is allowed in an ICS-24 identifier.
fn all_identifier_chars(s: &str) -> (r: bool)
    ensures
        r == identifier_chars(s@),
{
    let n = s.unicode_len();
    let mut i: usize = 0;
    while i < n
        invariant
            n == s@.len(),
            i <= n,
            forall|j: int| 0 <= j < i ==> #[trigger] is_identifier_char(s@[j]),
        decreases n - i,
    {
        if !identifier_char(s.get_char(i)) {
            return false;
        }
        i = i + 1;
    }
    true
}

/// Whether `s` is an ICS-24 port identifier.
pub fn valid_port_id(s: &str) -> (r: bool)
    ensures
        r == is_port_id(s@),
{
    let n = s.unicode_len();
    2 <= n && n <= 128 && all_identifier_chars(s)
}

/// Whether `s` is an ICS-24 identifier.
pub fn valid_identifier(s: &str) -> (r: bool)
    ensures
        r == is_identifier(s@),
{
    s.unicode_len() >= 1 && all_identifier_chars(s)
}

/// The first reason, in the order the request is read, to refuse it.
pub open spec fn spec_add_chain_error(req: AddChainRequest) -> Option<ChainConfigError> {
    if spec_fee_amount(req.fee_config) is None {
        Some(ChainConfigError::InvalidFeeAmount)
    } else if spec_gas_limit(req.fee_config) is None {
        Some(ChainConfigError::InvalidGasLimit)
    } else if spec_parse_ratio(opt_text(req.trust_level, default_trust_level_text())) is None {
        Some(ChainConfigError::InvalidTrustLevel)
    } else if spec_request_duration(req.trusting_period, default_trusting_period()) is None {
        Some(ChainConfigError::NegativeTrustingPeriod)
    } else if spec_request_duration(req.max_clock_drift, default_max_clock_drift()) is None {
        Some(ChainConfigError::NegativeMaxClockDrift)
    } else if spec_request_duration(req.rpc_timeout, default_rpc_timeout()) is None {
        Some(ChainConfigError::NegativeRpcTimeout)
    } else if !is_port_id(opt_text(req.port_id, "transfer"@)) {
        Some(ChainConfigError::InvalidPortId)
    } else {
        match spec_trusted_hash(req.trusted_hash) {
            Err(e) => Some(e),
            Ok(_) => None,
        }
    }
}

pub open spec fn opt_array_view(o: Option<[u8; 32]>) -> Option<Seq<u8>> {
    match o {
        Some(a) => Some(a@),
        None => None,
    }
}

/// The settings that an accepted request resolves to.
pub open spec fn add_chain_config_matches(req: AddChainRequest, c: ChainConfig) -> bool {
    &&& c.grpc_addr@ == opt_text(req.grpc_addr, "http://0.0.0.0:9090"@)
    &&& c.rpc_addr@ == opt_text(req.rpc_addr, "http://0.0.0.0:26657"@)
    &&& c.account_prefix@ == opt_text(req.account_prefix, "cosmos"@)
    &&& Some(c.fee.amount.bytes@) == spec_fee_amount(req.fee_config)
    &&& c.fee.denom@ == fee_denom_text(req.fee_config)
    &&& Some(c.fee.gas_limit) == spec_gas_limit(req.fee_config)
    &&& Some(c.trust_level) == spec_parse_ratio(opt_text(req.trust_level, default_trust_level_text()))
    &&& Some(c.trusting_period) == spec_request_duration(req.trusting_period, default_trusting_period())
    &&& Some(c.max_clock_drift) == spec_request_duration(req.max_clock_drift, default_max_clock_drift())
    &&& Some(c.rpc_timeout) == spec_request_duration(req.rpc_timeout, default_rpc_timeout())
    &&& c.diversifier@ == opt_text(req.diversifier, "solo-machine-diversifier"@)
    &&& c.port_id@ == opt_text(req.port_id, "transfer"@)
    &&& c.trusted_height == (match req.trusted_height {
        Some(h) => h as u64,
        None => 1u64,
    })
    &&& spec_trusted_hash(req.trusted_hash) == Ok::<Option<Seq<u8>>, ChainConfigError>(
        opt_array_view(c.trusted_hash),
    )
}

fn text_or(o: &Option<String>, dflt: &str) -> (r: String)
    ensures
        r@ == opt_text(*o, dflt@),
{
    match o {
        Some(s) => s.clone(),
        None => owned(dflt),
    }
}

fn request_duration(d: Option<ProtoDuration>, dflt: StdDuration) -> (r: Option<StdDuration>)
    requires
        d matches Some(p) ==> proto_duration_in_range(p),
    ensures
        r == spec_request_duration(d, dflt),
{
    match d {
        None => Some(dflt),
        Some(p) => match duration_from_proto(p) {
            Ok(x) => Some(x),
            Err(_) => None,
        },
    }
}

/// Copies 32 bytes into an array.
fn to_array32(b: &Vec<u8>) -> (r: [u8; 32])
    requires
        b@.len() == 32,
    ensures
        r@ == b@,
{
    let mut r = [0u8; 32];
    let mut i: usize = 0;
    while i < 32
        invariant
            b@.len() == 32,
            i <= 32,
            forall|j: int| 0 <= j < i ==> r@[j] == b@[j],
        decreases 32 - i,
    {
        r[i] = b[i];
        i = i + 1;
    }
    assert(r@ =~= b@);
    r
}

/// Reads the trusted hash of a request.
pub fn trusted_hash_of(h: &Option<String>) -> (r: Result<Option<[u8; 32]>, ChainConfigError>)
    ensures
        match r {
            Ok(a) => spec_trusted_hash(*h) == Ok::<Option<Seq<u8>>, ChainConfigError>(
                opt_array_view(a),
            ),
            Err(e) => spec_trusted_hash(*h) == Err::<Option<Seq<u8>>, ChainConfigError>(e),
        },
{
    match h {
        None => Ok(None),
        Some(t) => {
            if t.as_str().unicode_len() == 0 {
                return Ok(None);
            }
            match hex_decode(t.as_str().as_bytes()) {
                None => Err(ChainConfigError::InvalidTrustedHashHex),
                Some(b) => {
                    if b.len() != 32 {
                        Err(ChainConfigError::InvalidTrustedHashLength)
                    } else {
                        Ok(Some(to_array32(&b)))
                    }
                },
            }
        },
    }
}

/// Resolves a request to add a chain: every absent setting takes its
/// default, and the request is refused at the first setting that cannot be
/// read.
pub fn resolve_add_chain_request(req: &AddChainRequest) -> (r: Result<ChainConfig, ChainConfigError>)
    requires
        request_durations_in_range(*req),
    ensures
        match r {
            Ok(c) => spec_add_chain_error(*req) is None && add_chain_config_matches(*req, c),
            Err(e) => spec_add_chain_error(*req) == Some(e),
        },
{
    let grpc_addr = text_or(&req.grpc_addr, "http://0.0.0.0:9090");
    let rpc_addr = text_or(&req.rpc_addr, "http://0.0.0.0:26657");
    let account_prefix = text_or(&req.account_prefix, "cosmos");
    let fee_amount_txt: Option<&String> = match &req.fee_config {
        Some(c) => match &c.fee_amount {
            Some(s) => Some(s),
            None => None,
        },
        None => None,
    };
    let amount = match fee_amount_txt {
        None => default_fee_amount_bytes(),
        Some(t) => match parse_decimal(t.as_str()) {
            None => return Err(ChainConfigError::InvalidFeeAmount),
            Some(d) => d,
        },
    };
    proof {
        reveal_strlit("stake");
    }
    assert("stake"@ =~= default_fee_denom());
    let denom = match &req.fee_config {
        Some(c) => text_or(&c.fee_denom, "stake"),
        None => owned("stake"),
    };
    let gas_txt: Option<&String> = match &req.fee_config {
        Some(c) => match &c.gas_limit {
            Some(s) => Some(s),
            None => None,
        },
        None => None,
    };
    let gas_limit = match gas_txt {
        None => 300000u64,
        Some(t) => match parse_u64(t.as_str()) {
            None => return Err(ChainConfigError::InvalidGasLimit),
            Some(g) => g,
        },
    };
    proof {
        reveal_strlit("1/3");
    }
    assert("1/3"@ =~= default_trust_level_text());
    let trust_text = text_or(&req.trust_level, "1/3");
    let trust_level = match parse_trust_level(trust_text.as_str()) {
        None => return Err(ChainConfigError::InvalidTrustLevel),
        Some(t) => t,
    };
    let trusting_period = match request_duration(
        req.trusting_period,
        StdDuration { secs: 1209600, nanos: 0 },
    ) {
        None => return Err(ChainConfigError::NegativeTrustingPeriod),
        Some(d) => d,
    };
    let max_clock_drift = match request_duration(
        req.max_clock_drift,
        StdDuration { secs: 3, nanos: 0 },
    ) {
        None => return Err(ChainConfigError::NegativeMaxClockDrift),
        Some(d) => d,
    };
    let rpc_timeout = match request_duration(req.rpc_timeout, StdDuration { secs: 60, nanos: 0 }) {
        None => return Err(ChainConfigError::NegativeRpcTimeout),
        Some(d) => d,
    };
    let diversifier = text_or(&req.diversifier, "solo-machine-diversifier");
    let port_id = text_or(&req.port_id, "transfer");
    if !valid_port_id(port_id.as_str()) {
        return Err(ChainConfigError::InvalidPortId);
    }
    let trusted_height: u64 = match req.trusted_height {
        Some(h) => h as u64,
        None => 1,
    };
    let trusted_hash = match trusted_hash_of(&req.trusted_hash) {
        Err(e) => return Err(e),
        Ok(h) => h,
    };
    Ok(
        ChainConfig {
            grpc_addr,
            rpc_addr,
            account_prefix,
            fee: Fee { amount, denom, gas_limit },
            trust_level,
            trusting_period,
            max_clock_drift,
            rpc_timeout,
            diversifier,
            port_id,
            trusted_height,
            trusted_hash,
        },
    )
}

/// Fee settings of a chain configuration sent to the gRPC server; absent
/// values take their defaults.
#[derive(Debug, Clone)]
pub struct FeeSettings {
    pub fee_amount: Option<String>,
    pub fee_denom: Option<String>,
    pub gas_limit: Option<u64>,
}

/// A chain configuration sent to the gRPC server.
#[derive(Debug, Clone)]
pub struct ChainConfigRequest {
    pub grpc_addr: Option<String>,
    pub rpc_addr: Option<String>,
    pub fee_config: Option<FeeSettings>,
    pub trust_level: Option<String>,
    pub trusting_period: Option<ProtoDuration>,
    pub max_clock_drift: Option<ProtoDuration>,
    pub rpc_timeout: Option<ProtoDuration>,
    pub diversifier: Option<String>,
    pub port_id: Option<String>,
    pub trusted_height: Option<u32>,
    pub trusted_hash: Option<String>,
}

/// The settings of a chain that the gRPC server adds: no account prefix,
/// and a trusted hash that is always given.
#[derive(Debug, Clone)]
pub struct ServerChainConfig {
    pub grpc_addr: String,
    pub rpc_addr: String,
    pub fee: Fee,
    pub trust_level: TrustLevel,
    pub trusting_period: StdDuration,
    pub max_clock_drift: StdDuration,
    pub rpc_timeout: StdDuration,
    pub diversifier: String,
    pub port_id: String,
    pub trusted_height: u64,
    pub trusted_hash: [u8; 32],
}

/// The fee amount of the settings (`1000` when absent, or when no settings
/// are given); `None` when the text is not a decimal.
pub open spec fn spec_settings_fee_amount(f: Option<FeeSettings>) -> Option<Seq<u8>> {
    match f {
        Some(c) => match c.fee_amount {
            Some(t) => decimal_from_str(t@),
            None => decimal_from_str("1000"@),
        },
        None => decimal_from_str("1000"@),
    }
}

pub open spec fn settings_fee_denom(f: Option<FeeSettings>) -> Seq<char> {
    match f {
        Some(c) => opt_text(c.fee_denom, "stake"@),
        None => "stake"@,
    }
}

pub open spec fn settings_gas_limit(f: Option<FeeSettings>) -> u64 {
    match f {
        Some(c) => match c.gas_limit {
            Some(g) => g,
            None => 300000u64,
        },
        None => 300000u64,
    }
}

/// The durations of the configuration can be converted without overflow.
pub open spec fn config_durations_in_range(c: ChainConfigRequest) -> bool {
    &&& (c.trusting_period matches Some(p) ==> proto_duration_in_range(p))
    &&& (c.max_clock_drift matches Some(p) ==> proto_duration_in_range(p))
    &&& (c.rpc_timeout matches Some(p) ==> proto_duration_in_range(p))
}

/// The trusted hash of a configuration: required, not empty, the hex text
/// of 32 bytes.
pub open spec fn spec_required_trusted_hash(h: Option<String>) -> Result<Seq<u8>, ChainConfigError> {
    match h {
        None => Err(ChainConfigError::MissingTrustedHash),
        Some(t) => if t@.len() == 0 {
            Err(ChainConfigError::EmptyTrustedHash)
        } else {
            match spec_hex_decode(encode_utf8(t@)) {
                None => Err(ChainConfigError::InvalidTrustedHashHex),
                Some(b) => if b.len() != 32 {
                    Err(ChainConfigError::InvalidTrustedHashLength)
                } else {
                    Ok(b)
                },
            }
        },
    }
}

/// The first reason, in the order the configuration is read, to refuse it.
pub open spec fn spec_config_error(config: Option<ChainConfigRequest>) -> Option<ChainConfigError> {
    match config {
        None => Some(ChainConfigError::MissingConfig),
        Some(c) => if spec_settings_fee_amount(c.fee_config) is None {
            Some(ChainConfigError::InvalidFeeAmount)
        } else if !is_identifier(settings_fee_denom(c.fee_config)) {
            Some(ChainConfigError::InvalidFeeDenom)
        } else if spec_parse_ratio(opt_text(c.trust_level, default_trust_level_text())) is None {
            Some(ChainConfigError::InvalidTrustLevel)
        } else if spec_request_duration(c.trusting_period, default_trusting_period()) is None {
            Some(ChainConfigError::NegativeTrustingPeriod)
        } else if spec_request_duration(c.max_clock_drift, default_max_clock_drift()) is None {
            Some(ChainConfigError::NegativeMaxClockDrift)
        } else if spec_request_duration(c.rpc_timeout, default_rpc_timeout()) is None {
            Some(ChainConfigError::NegativeRpcTimeout)
        } else if !is_port_id(opt_text(c.port_id, "transfer"@)) {
            Some(ChainConfigError::InvalidPortId)
        } else if c.trusted_height is None {
            Some(ChainConfigError::MissingTrustedHeight)
        } else {
            match spec_required_trusted_hash(c.trusted_hash) {
                Err(e) => Some(e),
                Ok(_) => None,
            }
        },
    }
}

/// The settings that an accepted configuration resolves to.
pub open spec fn server_config_matches(c: ChainConfigRequest, r: ServerChainConfig) -> bool {
    &&& r.grpc_addr@ == opt_text(c.grpc_addr, "http://0.0.0.0:9090"@)
    &&& r.rpc_addr@ == opt_text(c.rpc_addr, "http://0.0.0.0:26657"@)
    &&& Some(r.fee.amount.bytes@) == spec_settings_fee_amount(c.fee_config)
    &&& r.fee.denom@ == settings_fee_denom(c.fee_config)
    &&& r.fee.gas_limit == settings_gas_limit(c.fee_config)
    &&& Some(r.trust_level) == spec_parse_ratio(opt_text(c.trust_level, default_trust_level_text()))
    &&& Some(r.trusting_period) == spec_request_duration(c.trusting_period, default_trusting_period())
    &&& Some(r.max_clock_drift) == spec_request_duration(c.max_clock_drift, default_max_clock_drift())
    &&& Some(r.rpc_timeout) == spec_request_duration(c.rpc_timeout, default_rpc_timeout())
    &&& r.diversifier@ == opt_text(c.diversifier, "solo-machine-diversifier"@)
    &&& r.port_id@ == opt_text(c.port_id, "transfer"@)
    &&& c.trusted_height is Some
    &&& r.trusted_height == c.trusted_height.unwrap() as u64
    &&& spec_required_trusted_hash(c.trusted_hash) == Ok::<Seq<u8>, ChainConfigError>(r.trusted_hash@)
}

/// Resolves the chain configuration of a request to the gRPC server: a
/// configuration, a trusted height and a non-empty trusted hash of 32 bytes
/// are required; every other absent setting takes its default; the request
/// is refused at the first setting that cannot be read.
pub fn resolve_chain_config(config: &Option<ChainConfigRequest>) -> (r: Result<
    ServerChainConfig,
    ChainConfigError,
>)
    requires
        *config matches Some(c) ==> config_durations_in_range(c),
    ensures
        match r {
            Ok(v) => spec_config_error(*config) is None && server_config_matches(config->0, v),
            Err(e) => spec_config_error(*config) == Some(e),
        },
{
    let c = match config {
        Some(c) => c,
        None => return Err(ChainConfigError::MissingConfig),
    };
    let grpc_addr = text_or(&c.grpc_addr, "http://0.0.0.0:9090");
    let rpc_addr = text_or(&c.rpc_addr, "http://0.0.0.0:26657");
    let amount_text = match &c.fee_config {
        Some(f) => text_or(&f.fee_amount, "1000"),
        None => owned("1000"),
    };
    let amount = match parse_decimal(amount_text.as_str()) {
        None => return Err(ChainConfigError::InvalidFeeAmount),
        Some(d) => d,
    };
    let denom = match &c.fee_config {
        Some(f) => text_or(&f.fee_denom, "stake"),
        None => owned("stake"),
    };
    if !valid_identifier(denom.as_str()) {
        return Err(ChainConfigError::InvalidFeeDenom);
    }
    let gas_limit: u64 = match &c.fee_config {
        Some(f) => match f.gas_limit {
            Some(g) => g,
            None => 300000,
        },
        None => 300000,
    };
    proof {
        reveal_strlit("1/3");
    }
    assert("1/3"@ =~= default_trust_level_text());
    let trust_text = text_or(&c.trust_level, "1/3");
    let trust_level = match parse_trust_level(trust_text.as_str()) {
        None => return Err(ChainConfigError::InvalidTrustLevel),
        Some(t) => t,
    };
    let trusting_period = match request_duration(
        c.trusting_period,
        StdDuration { secs: 1209600, nanos: 0 },
    ) {
        None => return Err(ChainConfigError::NegativeTrustingPeriod),
        Some(d) => d,
    };
    let max_clock_drift = match request_duration(
        c.max_clock_drift,
        StdDuration { secs: 3, nanos: 0 },
    ) {
        None => return Err(ChainConfigError::NegativeMaxClockDrift),
        Some(d) => d,
    };
    let rpc_timeout = match request_duration(c.rpc_timeout, StdDuration { secs: 60, nanos: 0 }) {
        None => return Err(ChainConfigError::NegativeRpcTimeout),
        Some(d) => d,
    };
    let diversifier = text_or(&c.diversifier, "solo-machine-diversifier");
    let port_id = text_or(&c.port_id, "transfer");
    if !valid_port_id(port_id.as_str()) {
        return Err(ChainConfigError::InvalidPortId);
    }
    let trusted_height: u64 = match c.trusted_height {
        Some(h) => h as u64,
        None => return Err(ChainConfigError::MissingTrustedHeight),
    };
    let trusted_hash = match &c.trusted_hash {
        None => return Err(ChainConfigError::MissingTrustedHash),
        Some(t) => {
            if t.unicode_len() == 0 {
                return Err(ChainConfigError::EmptyTrustedHash);
            }
            let text = t.as_str().as_bytes_vec();
            match hex_decode(text.as_slice()) {
                None => return Err(ChainConfigError::InvalidTrustedHashHex),
                Some(b) => {
                    if b.len() != 32 {
                        return Err(ChainConfigError::InvalidTrustedHashLength);
                    }
                    to_array32(&b)
                },
            }
        },
    };
    Ok(
        ServerChainConfig {
            grpc_addr,
            rpc_addr,
            fee: Fee { amount, denom, gas_limit },
            trust_level,
            trusting_period,
            max_clock_drift,
            rpc_timeout,
            diversifier,
            port_id,
            trusted_height,
            trusted_hash,
        },
    )
}

/// A chain's configuration as the gRPC server answers a query.
#[derive(Debug, Clone)]
pub struct ChainConfigAnswer {
    pub grpc_addr: String,
    pub rpc_addr: String,
    pub fee_amount: String,
    pub fee_denom: String,
    pub gas_limit: u64,
    pub trust_level: String,
    pub trusting_period: ProtoDuration,
    pub max_clock_drift: ProtoDuration,
    pub rpc_timeout: ProtoDuration,
    pub diversifier: String,
    pub port_id: String,
    pub trusted_height: u32,
    pub trusted_hash: String,
}

/// Why a chain could not be answered.
#[derive(Debug, Clone, Copy, PartialEq, Eq, Structural)]
pub enum ChainAnswerError {
    /// The trusted height does not fit in 32 bits.
    TrustedHeightTooLarge,
}

/// The answer to a query for a chain configuration: every setting in
/// display form; refused when the trusted height does not fit in 32 bits.
pub open spec fn config_answer_matches(c: ServerChainConfig, a: ChainConfigAnswer) -> bool {
    &&& a.grpc_addr@ == c.grpc_addr@
    &&& a.rpc_addr@ == c.rpc_addr@
    &&& a.fee_amount@ == decimal_display(c.fee.amount.bytes@)
    &&& a.fee_denom@ == c.fee.denom@
    &&& a.gas_limit == c.fee.gas_limit
    &&& a.trust_level@ == spec_ratio_text(c.trust_level)
    &&& a.trusting_period == spec_duration_to_proto(c.trusting_period)
    &&& a.max_clock_drift == spec_duration_to_proto(c.max_clock_drift)
    &&& a.rpc_timeout == spec_duration_to_proto(c.rpc_timeout)
    &&& a.diversifier@ == c.diversifier@
    &&& a.port_id@ == c.port_id@
    &&& a.trusted_height as u64 == c.trusted_height
    &&& a.trusted_hash@ == spec_hex_encode(c.trusted_hash@)
}

/// Answers a query for a chain configuration with its settings in display
/// form.
pub fn chain_config_answer(c: &ServerChainConfig) -> (r: Result<ChainConfigAnswer, ChainAnswerError>)
    requires
        c.trusting_period.wf(),
        c.max_clock_drift.wf(),
        c.rpc_timeout.wf(),
    ensures
        c.trusted_height > u32::MAX ==> r == Err::<ChainConfigAnswer, ChainAnswerError>(
            ChainAnswerError::TrustedHeightTooLarge,
        ),
        c.trusted_height <= u32::MAX ==> (r matches Ok(a) && config_answer_matches(*c, a)),
{
    if c.trusted_height > 4294967295u64 {
        return Err(ChainAnswerError::TrustedHeightTooLarge);
    }
    Ok(
        ChainConfigAnswer {
            grpc_addr: c.grpc_addr.clone(),
            rpc_addr: c.rpc_addr.clone(),
            fee_amount: decimal_to_text(c.fee.amount),
            fee_denom: c.fee.denom.clone(),
            gas_limit: c.fee.gas_limit,
            trust_level: trust_level_text(c.trust_level),
            trusting_period: duration_to_proto(c.trusting_period),
            max_clock_drift: duration_to_proto(c.max_clock_drift),
            rpc_timeout: duration_to_proto(c.rpc_timeout),
            diversifier: c.diversifier.clone(),
            port_id: c.port_id.clone(),
            trusted_height: c.trusted_height as u32,
            trusted_hash: hex_encode(c.trusted_hash.as_slice()),
        },
    )
}

/// A configuration accepted by the gRPC server is answered back as given:
/// the addresses, fee denomination and gas limit, diversifier and port (or
/// their defaults), and the trusted height.
pub proof fn lemma_config_answered_as_given(c: ChainConfigRequest, v: ServerChainConfig, a: ChainConfigAnswer)
    requires
        server_config_matches(c, v),
        config_answer_matches(v, a),
    ensures
        a.grpc_addr@ == opt_text(c.grpc_addr, "http://0.0.0.0:9090"@),
        a.rpc_addr@ == opt_text(c.rpc_addr, "http://0.0.0.0:26657"@),
        a.fee_denom@ == settings_fee_denom(c.fee_config),
        a.gas_limit == settings_gas_limit(c.fee_config),
        a.diversifier@ == opt_text(c.diversifier, "solo-machine-diversifier"@),
        a.port_id@ == opt_text(c.port_id, "transfer"@),
        c.trusted_height == Some(a.trusted_height),
{
}

/// The record of a newly added chain.
pub open spec fn spec_chain_from_config(
    id: String,
    node_id: String,
    config: ChainConfig,
    consensus_timestamp: u64,
) -> Chain {
    Chain {
        id,
        node_id,
        grpc_addr: config.grpc_addr,
        rpc_addr: config.rpc_addr,
        account_prefix: config.account_prefix,
        fee: config.fee,
        trust_level: config.trust_level,
        trusting_period: config.trusting_period,
        max_clock_drift: config.max_clock_drift,
        rpc_timeout: config.rpc_timeout,
        diversifier: config.diversifier,
        consensus_timestamp,
        sequence: 1,
        packet_sequence: 1,
        port_id: config.port_id,
        trusted_height: config.trusted_height,
        trusted_hash: config.trusted_hash,
        connection_details: None,
    }
}

impl Chain {
    /// The record of a newly added chain: its settings, the identity of the
    /// node it was reached through and the current consensus timestamp; both
    /// sequences start at one and no connection is established yet.
    pub fn from_config(
        id: String,
        node_id: String,
        config: ChainConfig,
        consensus_timestamp: u64,
    ) -> (r: Chain)
        ensures
            r.id == id,
            r.node_id == node_id,
            r.grpc_addr == config.grpc_addr,
            r.rpc_addr == config.rpc_addr,
            r.account_prefix == config.account_prefix,
            r.fee == config.fee,
            r.trust_level == config.trust_level,
            r.trusting_period == config.trusting_period,
            r.max_clock_drift == config.max_clock_drift,
            r.rpc_timeout == config.rpc_timeout,
            r.diversifier == config.diversifier,
            r.consensus_timestamp == consensus_timestamp,
            r.sequence == 1,
            r.packet_sequence == 1,
            r.port_id == config.port_id,
            r.trusted_height == config.trusted_height,
            r.trusted_hash == config.trusted_hash,
            r.connection_details is None,
            r == spec_chain_from_config(id, node_id, config, consensus_timestamp),
    {
        Chain {
            id,
            node_id,
            grpc_addr: config.grpc_addr,
            rpc_addr: config.rpc_addr,
            account_prefix: config.account_prefix,
            fee: config.fee,
            trust_level: config.trust_level,
            trusting_period: config.trusting_period,
            max_clock_drift: config.max_clock_drift,
            rpc_timeout: config.rpc_timeout,
            diversifier: config.diversifier,
            consensus_timestamp,
            sequence: 1,
            packet_sequence: 1,
            port_id: config.port_id,
            trusted_height: config.trusted_height,
            trusted_hash: config.trusted_hash,
            connection_details: None,
        }
    }
}

/// What the chain service answers to a query for a chain.
#[derive(Debug, Clone)]
pub struct QueryChainResponse {
    pub chain_id: String,
    pub node_id: String,
    pub grpc_addr: String,
    pub rpc_addr: String,
    pub account_prefix: String,
    pub fee_config: Option<FeeConfig>,
    pub trust_level: String,
    pub trusting_period: Option<ProtoDuration>,
    pub max_clock_drift: Option<ProtoDuration>,
    pub rpc_timeout: Option<ProtoDuration>,
    pub diversifier: String,
    pub sequence: u64,
    pub packet_sequence: u64,
    pub port_id: String,
    pub trusted_height: u64,
    pub trusted_hash: String,
    pub connection_details: Option<ConnectionDetails>,
}

pub open spec fn connection_details_answer(d: ChainConnectionDetails) -> ConnectionDetails {
    ConnectionDetails {
        solo_machine_client_id: d.solo_machine_client_id,
        tendermint_client_id: d.tendermint_client_id,
        solo_machine_connection_id: d.solo_machine_connection_id,
        tendermint_connection_id: d.tendermint_connection_id,
        solo_machine_channel_id: d.solo_machine_channel_id,
        tendermint_channel_id: d.tendermint_channel_id,
    }
}

/// The answer to a query for `chain`: its settings in display form.
pub open spec fn query_answers(chain: Chain, r: QueryChainResponse) -> bool {
    &&& r.chain_id@ == chain.id@
    &&& r.node_id@ == chain.node_id@
    &&& r.grpc_addr@ == chain.grpc_addr@
    &&& r.rpc_addr@ == chain.rpc_addr@
    &&& r.account_prefix@ == chain.account_prefix@
    &&& r.fee_config is Some
    &&& fee_amount_text(r.fee_config) == Some(decimal_display(chain.fee.amount.bytes@))
    &&& r.fee_config.unwrap().fee_denom is Some
    &&& r.fee_config.unwrap().fee_denom.unwrap()@ == chain.fee.denom@
    &&& gas_limit_text(r.fee_config) == Some(decimal_text(chain.fee.gas_limit as nat))
    &&& r.trust_level@ == spec_ratio_text(chain.trust_level)
    &&& r.trusting_period == Some(spec_duration_to_proto(chain.trusting_period))
    &&& r.max_clock_drift == Some(spec_duration_to_proto(chain.max_clock_drift))
    &&& r.rpc_timeout == Some(spec_duration_to_proto(chain.rpc_timeout))
    &&& r.diversifier@ == chain.diversifier@
    &&& r.sequence == chain.sequence
    &&& r.packet_sequence == chain.packet_sequence
    &&& r.port_id@ == chain.port_id@
    &&& r.trusted_height == chain.trusted_height
    &&& r.trusted_hash@ == (match chain.trusted_hash {
        Some(h) => spec_hex_encode(h@),
        None => Seq::empty(),
    })
    &&& r.connection_details == (match chain.connection_details {
        Some(d) => Some(connection_details_answer(d)),
        None => None,
    })
}

impl Chain {
    /// The spans of time held by the chain are well formed.
    pub open spec fn wf(self) -> bool {
        &&& self.trusting_period.wf()
        &&& self.max_clock_drift.wf()
        &&& self.rpc_timeout.wf()
    }
}

/// Answers a query for a chain with its settings in display form.
pub fn query_chain_response(chain: &Chain) -> (r: QueryChainResponse)
    requires
        chain.wf(),
    ensures
        query_answers(*chain, r),
{
    let trusted_hash = match &chain.trusted_hash {
        Some(h) => hex_encode(h.as_slice()),
        None => String::new(),
    };
    let connection_details = match &chain.connection_details {
        Some(d) => Some(ConnectionDetails::from(d)),
        None => None,
    };
    QueryChainResponse {
        chain_id: chain.id.clone(),
        node_id: chain.node_id.clone(),
        grpc_addr: chain.grpc_addr.clone(),
        rpc_addr: chain.rpc_addr.clone(),
        account_prefix: chain.account_prefix.clone(),
        fee_config: Some(
            FeeConfig {
                fee_amount: Some(decimal_to_text(chain.fee.amount)),
                fee_denom: Some(chain.fee.denom.clone()),
                gas_limit: Some(u64_to_decimal(chain.fee.gas_limit)),
            },
        ),
        trust_level: trust_level_text(chain.trust_level),
        trusting_period: Some(duration_to_proto(chain.trusting_period)),
        max_clock_drift: Some(duration_to_proto(chain.max_clock_drift)),
        rpc_timeout: Some(duration_to_proto(chain.rpc_timeout)),
        diversifier: chain.diversifier.clone(),
        sequence: chain.sequence,
        packet_sequence: chain.packet_sequence,
        port_id: chain.port_id.clone(),
        trusted_height: chain.trusted_height,
        trusted_hash,
        connection_details,
    }
}

/// A chain added from an accepted request answers a query with what the
/// request asked for: the addresses, account prefix, diversifier and port
/// given (or their defaults), the fee denomination, the gas limit read back
/// as the same number, the trusted height, the trusted hash as lower case
/// hex (empty when none), both sequences at one and no connection yet.
pub proof fn lemma_added_chain_answers_query(
    req: AddChainRequest,
    config: ChainConfig,
    id: String,
    node_id: String,
    consensus_timestamp: u64,
    r: QueryChainResponse,
)
    requires
        add_chain_config_matches(req, config),
        query_answers(spec_chain_from_config(id, node_id, config, consensus_timestamp), r),
    ensures
        r.chain_id@ == id@,
        r.grpc_addr@ == opt_text(req.grpc_addr, "http://0.0.0.0:9090"@),
        r.rpc_addr@ == opt_text(req.rpc_addr, "http://0.0.0.0:26657"@),
        r.account_prefix@ == opt_text(req.account_prefix, "cosmos"@),
        r.diversifier@ == opt_text(req.diversifier, "solo-machine-diversifier"@),
        r.port_id@ == opt_text(req.port_id, "transfer"@),
        r.fee_config.unwrap().fee_denom.unwrap()@ == fee_denom_text(req.fee_config),
        spec_parse_u64(gas_limit_text(r.fee_config).unwrap()) == spec_gas_limit(req.fee_config),
        r.trusted_height == (match req.trusted_height {
            Some(h) => h as u64,
            None => 1u64,
        }),
        r.trusted_hash@ == (match spec_trusted_hash(req.trusted_hash) {
            Ok(Some(b)) => spec_hex_encode(b),
            _ => Seq::empty(),
        }),
        r.sequence == 1,
        r.packet_sequence == 1,
        r.connection_details is None,
{
    lemma_u64_text_round_trip(config.fee.gas_limit);
}

/// The trusted hash that the gRPC server answers for a chain is accepted
/// back as the trusted hash of a new configuration, and gives the same 32
/// bytes.
pub proof fn lemma_answered_trusted_hash_accepted(
    c: ServerChainConfig,
    a: ChainConfigAnswer,
    hash_text: String,
)
    requires
        config_answer_matches(c, a),
        hash_text@ == a.trusted_hash@,
    ensures
        spec_required_trusted_hash(Some(hash_text)) == Ok::<Seq<u8>, ChainConfigError>(
            c.trusted_hash@,
        ),
{
    lemma_hex_round_trip(c.trusted_hash@);
    lemma_hex_encode_len(c.trusted_hash@);
}

/// The configuration request that repeats a query's answer.
pub open spec fn request_from_answer(a: ChainConfigAnswer) -> ChainConfigRequest {
    ChainConfigRequest {
        grpc_addr: Some(a.grpc_addr),
        rpc_addr: Some(a.rpc_addr),
        fee_config: Some(
            FeeSettings {
                fee_amount: Some(a.fee_amount),
                fee_denom: Some(a.fee_denom),
                gas_limit: Some(a.gas_limit),
            },
        ),
        trust_level: Some(a.trust_level),
        trusting_period: Some(a.trusting_period),
        max_clock_drift: Some(a.max_clock_drift),
        rpc_timeout: Some(a.rpc_timeout),
        diversifier: Some(a.diversifier),
        port_id: Some(a.port_id),
        trusted_height: Some(a.trusted_height),
        trusted_hash: Some(a.trusted_hash),
    }
}

proof fn lemma_request_duration_round_trip(d: Option<ProtoDuration>, dflt: StdDuration, x: StdDuration)
    requires
        dflt.wf(),
        spec_request_duration(d, dflt) == Some(x),
        x.secs <= i64::MAX,
    ensures
        spec_request_duration(Some(spec_duration_to_proto(x)), dflt) == Some(x),
{
    lemma_duration_round_trip(x);
}

/// A chain configuration that the gRPC server accepted, answered by a query
/// and sent back as a new configuration, resolves (when it resolves) to the
/// same settings: addresses, fee denomination and gas limit, trust level,
/// durations, diversifier, port, trusted height and trusted hash. Durations
/// whose seconds exceed the signed 64-bit range are left out, since the
/// answer saturates them.
pub proof fn lemma_answer_resolves_back(
    c: ChainConfigRequest,
    v: ServerChainConfig,
    a: ChainConfigAnswer,
    v2: ServerChainConfig,
)
    requires
        server_config_matches(c, v),
        config_answer_matches(v, a),
        server_config_matches(request_from_answer(a), v2),
        v.trusting_period.secs <= i64::MAX,
        v.max_clock_drift.secs <= i64::MAX,
        v.rpc_timeout.secs <= i64::MAX,
    ensures
        v2.grpc_addr@ == v.grpc_addr@,
        v2.rpc_addr@ == v.rpc_addr@,
        v2.fee.denom@ == v.fee.denom@,
        v2.fee.gas_limit == v.fee.gas_limit,
        v2.trust_level == v.trust_level,
        v2.trusting_period == v.trusting_period,
        v2.max_clock_drift == v.max_clock_drift,
        v2.rpc_timeout == v.rpc_timeout,
        v2.diversifier@ == v.diversifier@,
        v2.port_id@ == v.port_id@,
        v2.trusted_height == v.trusted_height,
        v2.trusted_hash@ == v.trusted_hash@,
{
    lemma_trust_level_text_round_trip(opt_text(c.trust_level, default_trust_level_text()));
    lemma_request_duration_round_trip(c.trusting_period, default_trusting_period(), v.trusting_period);
    lemma_request_duration_round_trip(c.max_clock_drift, default_max_clock_drift(), v.max_clock_drift);
    lemma_request_duration_round_trip(c.rpc_timeout, default_rpc_timeout(), v.rpc_timeout);
    lemma_answered_trusted_hash_accepted(v, a, a.trusted_hash);
}

} // verus!
