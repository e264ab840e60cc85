use vstd::prelude::*;
use crate::chain::ChainConnectionDetails;
use crate::text::owned;
use crate::command::ColorChoice;
use crate::output::OutputType;

verus! {

/// Events that the solo machine reports while it works. Identifiers, amounts
/// and keys are carried in their displayed form.
#[derive(Debug, Clone)]
pub enum Event {
    TokensMinted {
        chain_id: String,
        request_id: Option<String>,
        to_address: String,
        amount: String,
        denom: String,
        transaction_hash: String,
    },
    TokensBurnt {
        chain_id: String,
        request_id: Option<String>,
        from_address: String,
        amount: String,
        denom: String,
        transaction_hash: String,
    },
    SignerUpdated { chain_id: String, old_public_key: String, new_public_key: String },
    CreatedSoloMachineClient { client_id: String },
    CreatedTendermintClient { client_id: String },
    InitializedConnectionOnTendermint { connection_id: String },
    InitializedConnectionOnSoloMachine { connection_id: String },
    ConfirmedConnectionOnTendermint { connection_id: String },
    ConfirmedConnectionOnSoloMachine { connection_id: String },
    InitializedChannelOnTendermint { channel_id: String },
    InitializedChannelOnSoloMachine { channel_id: String },
    ConfirmedChannelOnTendermint { channel_id: String },
    ConfirmedChannelOnSoloMachine { channel_id: String },
    CloseChannelInitOnSoloMachine { chain_id: String, channel_id: String },
    ConnectionEstablished { chain_id: String, connection_details: ChainConnectionDetails },
    ChainAdded { chain_id: String },
    Warning { message: String },
}

/// Level at which an event is logged.
#[derive(Debug, Clone, Copy, PartialEq, Eq, Structural)]
pub enum LogLevel {
    Info,
    Warn,
}

/// A line for the process log.
#[derive(Debug, Clone)]
pub struct LogLine {
    pub level: LogLevel,
    pub message: String,
}

/// How `serde_json` writes `s` as a JSON string (quoted and escaped); `None`
/// when serialisation fails.
pub uninterp spec fn json_string_literal(s: Seq<char>) -> Option<Seq<char>>;

/// Serialises a string slice with `serde_json::to_string`. Claimed: the
/// result is [`json_string_literal`] of the text.
#[verifier::external_body]
pub(crate) fn json_quote(s: &str) -> (r: Option<String>)
    ensures
        json_string_literal(s@) == (match r {
            Some(v) => Some(v@),
            None => None,
        }),
{
    serde_json::to_string(s).ok()
}

pub open spec fn opt_or(o: Option<String>, dflt: Seq<char>) -> Seq<char> {
    match o {
        Some(s) => s@,
        None => dflt,
    }
}

/// The JSON object of connection details, fields in declaration order, as
/// `serde_json` writes a struct of strings.
pub open spec fn spec_connection_details_json(d: ChainConnectionDetails) -> Option<Seq<char>> {
    let a = json_string_literal(d.solo_machine_client_id@);
    let b = json_string_literal(d.tendermint_client_id@);
    let c = json_string_literal(d.solo_machine_connection_id@);
    let e = json_string_literal(d.tendermint_connection_id@);
    let f = json_string_literal(d.solo_machine_channel_id@);
    let g = json_string_literal(d.tendermint_channel_id@);
    if a is Some && b is Some && c is Some && e is Some && f is Some && g is Some {
        Some(
            "{\"solo_machine_client_id\":"@ + a.unwrap() + ",\"tendermint_client_id\":"@
                + b.unwrap() + ",\"solo_machine_connection_id\":"@ + c.unwrap()
                + ",\"tendermint_connection_id\":"@ + e.unwrap() + ",\"solo_machine_channel_id\":"@
                + f.unwrap() + ",\"tendermint_channel_id\":"@ + g.unwrap() + "}"@,
        )
    } else {
        None
    }
}

/// The log line for an event: its level and message; `None` when the
/// connection details of an established connection cannot be serialised.
pub open spec fn spec_log_line(e: Event) -> Option<(LogLevel, Seq<char>)> {
    match e {
        Event::TokensMinted { chain_id, request_id, to_address, amount, denom, transaction_hash } => Some(
            (
                LogLevel::Info,
                "Minted new tokens [Chain ID = "@ + chain_id@ + "] [Request ID = "@ + opt_or(
                    request_id,
                    "None"@,
                ) + "] [Address = "@ + to_address@ + "] [Amount = "@ + amount@ + " "@ + denom@
                    + "] [Transaction Hash = "@ + transaction_hash@ + "]"@,
            ),
        ),
        Event::TokensBurnt {
            chain_id,
            request_id,
            from_address,
            amount,
            denom,
            transaction_hash,
        } => Some(
            (
                LogLevel::Info,
                "Burnt tokens [Chain ID = "@ + chain_id@ + "] [Request ID = "@ + opt_or(
                    request_id,
                    "None"@,
                ) + "] [Address = "@ + from_address@ + "] [Amount = "@ + amount@ + " "@ + denom@
                    + "] [Transaction Hash = "@ + transaction_hash@ + "]"@,
            ),
        ),
        Event::SignerUpdated { chain_id, .. } => Some(
            (
                LogLevel::Info,
                "Successfully updated signer's public key [Chain ID: "@ + chain_id@ + "]"@,
            ),
        ),
        Event::CreatedSoloMachineClient { client_id } => Some(
            (
                LogLevel::Info,
                "Created solo machine client on IBC enabled chain [Client ID = "@ + client_id@
                    + "]"@,
            ),
        ),
        Event::CreatedTendermintClient { client_id } => Some(
            (
                LogLevel::Info,
                "Created tendermint client on solo machine [Client ID = "@ + client_id@ + "]"@,
            ),
        ),
        Event::InitializedConnectionOnTendermint { connection_id } => Some(
            (
                LogLevel::Info,
                "Initialized connection on IBC enabled chain [Connection ID = "@ + connection_id@
                    + "]"@,
            ),
        ),
        Event::InitializedConnectionOnSoloMachine { connection_id } => Some(
            (
                LogLevel::Info,
                "Initialized connection on solo machine [Connection ID = "@ + connection_id@
                    + "]"@,
            ),
        ),
        Event::ConfirmedConnectionOnTendermint { connection_id } => Some(
            (
                LogLevel::Info,
                "Confirmed connection on IBC enabled chain [Connection ID = "@ + connection_id@
                    + "]"@,
            ),
        ),
        Event::ConfirmedConnectionOnSoloMachine { connection_id } => Some(
            (
                LogLevel::Info,
                "Confirmed connection on solo machine [Connection ID = "@ + connection_id@ + "]"@,
            ),
        ),
        Event::InitializedChannelOnTendermint { channel_id } => Some(
            (
                LogLevel::Info,
                "Initialized channel on IBC enabled chain [Channel ID = "@ + channel_id@ + "]"@,
            ),
        ),
        Event::InitializedChannelOnSoloMachine { channel_id } => Some(
            (
                LogLevel::Info,
                "Initialized channel on solo machine [Channel ID = "@ + channel_id@ + "]"@,
            ),
        ),
        Event::ConfirmedChannelOnTendermint { channel_id } => Some(
            (
                LogLevel::Info,
                "Confirmed channel on IBC enabled chain [Channel ID = "@ + channel_id@ + "]"@,
            ),
        ),
        Event::ConfirmedChannelOnSoloMachine { channel_id } => Some(
            (
                LogLevel::Info,
                "Confirmed channel on solo machine [Channel ID = "@ + channel_id@ + "]"@,
            ),
        ),
        Event::CloseChannelInitOnSoloMachine { chain_id, channel_id } => Some(
            (
                LogLevel::Info,
                "Chain channel init closed! [Chain ID = "@ + chain_id@ + "] [Channel ID = "@
                    + channel_id@ + "]"@,
            ),
        ),
        Event::ConnectionEstablished { chain_id, connection_details } => match spec_connection_details_json(
            connection_details,
        ) {
            Some(json) => Some(
                (
                    LogLevel::Info,
                    "Connection successfully established [Chain ID = "@ + chain_id@
                        + "] [Details = "@ + json + "]"@,
                ),
            ),
            None => None,
        },
        Event::ChainAdded { chain_id } => Some(
            (LogLevel::Info, "Added new chain [Chain ID = "@ + chain_id@ + "]"@),
        ),
        Event::Warning { message } => Some((LogLevel::Warn, message@)),
    }
}

/// Serialises connection details as a JSON object.
pub fn connection_details_json(d: &ChainConnectionDetails) -> (r: Option<String>)
    ensures
        spec_connection_details_json(*d) == (match r {
            Some(v) => Some(v@),
            None => None,
        }),
{
    let a = json_quote(d.solo_machine_client_id.as_str());
    let b = json_quote(d.tendermint_client_id.as_str());
    let c = json_quote(d.solo_machine_connection_id.as_str());
    let e = json_quote(d.tendermint_connection_id.as_str());
    let f = json_quote(d.solo_machine_channel_id.as_str());
    let g = json_quote(d.tendermint_channel_id.as_str());
    match (a, b, c, e, f, g) {
        (Some(a), Some(b), Some(c), Some(e), Some(f), Some(g)) => {
            let mut s = owned("{\"solo_machine_client_id\":");
            s.append(a.as_str());
            s.append(",\"tendermint_client_id\":");
            s.append(b.as_str());
            s.append(",\"solo_machine_connection_id\":");
            s.append(c.as_str());
            s.append(",\"tendermint_connection_id\":");
            s.append(e.as_str());
            s.append(",\"solo_machine_channel_id\":");
            s.append(f.as_str());
            s.append(",\"tendermint_channel_id\":");
            s.append(g.as_str());
            s.append("}");
            Some(s)
        },
        _ => None,
    }
}

/// `prefix` + `id` + `]`.
fn bracket_line(prefix: &str, id: &String) -> (r: String)
    ensures
        r@ == prefix@ + id@ + "]"@,
{
    let mut s = owned(prefix);
    s.append(id.as_str());
    s.append("]");
    s
}

fn opt_str(o: &Option<String>, dflt: &str) -> (r: String)
    ensures
        r@ == opt_or(*o, dflt@),
{
    match o {
        Some(v) => v.clone(),
        None => owned(dflt),
    }
}

/// The process log line for an event.
pub fn log_line(e: &Event) -> (r: Option<LogLine>)
    ensures
        spec_log_line(*e) == (match r {
            Some(l) => Some((l.level, l.message@)),
            None => None,
        }),
{
    match e {
        Event::TokensMinted { chain_id, request_id, to_address, amount, denom, transaction_hash } => {
            let mut s = owned("Minted new tokens [Chain ID = ");
            s.append(chain_id.as_str());
            s.append("] [Request ID = ");
            s.append(opt_str(request_id, "None").as_str());
            s.append("] [Address = ");
            s.append(to_address.as_str());
            s.append("] [Amount = ");
            s.append(amount.as_str());
            s.append(" ");
            s.append(denom.as_str());
            s.append("] [Transaction Hash = ");
            s.append(transaction_hash.as_str());
            s.append("]");
            Some(LogLine { level: LogLevel::Info, message: s })
        },
        Event::TokensBurnt { chain_id, request_id, from_address, amount, denom, transaction_hash } => {
            let mut s = owned("Burnt tokens [Chain ID = ");
            s.append(chain_id.as_str());
            s.append("] [Request ID = ");
            s.append(opt_str(request_id, "None").as_str());
            s.append("] [Address = ");
            s.append(from_address.as_str());
            s.append("] [Amount = ");
            s.append(amount.as_str());
            s.append(" ");
            s.append(denom.as_str());
            s.append("] [Transaction Hash = ");
            s.append(transaction_hash.as_str());
            s.append("]");
            Some(LogLine { level: LogLevel::Info, message: s })
        },
        Event::SignerUpdated { chain_id, .. } => Some(
            LogLine {
                level: LogLevel::Info,
                message: bracket_line("Successfully updated signer's public key [Chain ID: ", chain_id),
            },
        ),
        Event::CreatedSoloMachineClient { client_id } => Some(
            LogLine {
                level: LogLevel::Info,
                message: bracket_line(
                    "Created solo machine client on IBC enabled chain [Client ID = ",
                    client_id,
                ),
            },
        ),
        Event::CreatedTendermintClient { client_id } => Some(
            LogLine {
                level: LogLevel::Info,
                message: bracket_line(
                    "Created tendermint client on solo machine [Client ID = ",
                    client_id,
                ),
            },
        ),
        Event::InitializedConnectionOnTendermint { connection_id } => Some(
            LogLine {
                level: LogLevel::Info,
                message: bracket_line(
                    "Initialized connection on IBC enabled chain [Connection ID = ",
                    connection_id,
                ),
            },
        ),
        Event::InitializedConnectionOnSoloMachine { connection_id } => Some(
            LogLine {
                level: LogLevel::Info,
                message: bracket_line(
                    "Initialized connection on solo machine [Connection ID = ",
                    connection_id,
                ),
            },
        ),
        Event::ConfirmedConnectionOnTendermint { connection_id } => Some(
            LogLine {
                level: LogLevel::Info,
                message: bracket_line(
                    "Confirmed connection on IBC enabled chain [Connection ID = ",
                    connection_id,
                ),
            },
        ),
        Event::ConfirmedConnectionOnSoloMachine { connection_id } => Some(
            LogLine {
                level: LogLevel::Info,
                message: bracket_line(
                    "Confirmed connection on solo machine [Connection ID = ",
                    connection_id,
                ),
            },
        ),
        Event::InitializedChannelOnTendermint { channel_id } => Some(
            LogLine {
                level: LogLevel::Info,
                message: bracket_line(
                    "Initialized channel on IBC enabled chain [Channel ID = ",
                    channel_id,
                ),
            },
        ),
        Event::InitializedChannelOnSoloMachine { channel_id } => Some(
            LogLine {
                level: LogLevel::Info,
                message: bracket_line(
                    "Initialized channel on solo machine [Channel ID = ",
                    channel_id,
                ),
            },
        ),
        Event::ConfirmedChannelOnTendermint { channel_id } => Some(
            LogLine {
                level: LogLevel::Info,
                message: bracket_line(
                    "Confirmed channel on IBC enabled chain [Channel ID = ",
                    channel_id,
                ),
            },
        ),
        Event::ConfirmedChannelOnSoloMachine { channel_id } => Some(
            LogLine {
                level: LogLevel::Info,
                message: bracket_line(
                    "Confirmed channel on solo machine [Channel ID = ",
                    channel_id,
                ),
            },
        ),
        Event::CloseChannelInitOnSoloMachine { chain_id, channel_id } => {
            let mut s = owned("Chain channel init closed! [Chain ID = ");
            s.append(chain_id.as_str());
            s.append("] [Channel ID = ");
            s.append(channel_id.as_str());
            s.append("]");
            Some(LogLine { level: LogLevel::Info, message: s })
        },
        Event::ConnectionEstablished { chain_id, connection_details } => {
            match connection_details_json(connection_details) {
                None => None,
                Some(json) => {
                    let mut s = owned("Connection successfully established [Chain ID = ");
                    s.append(chain_id.as_str());
                    s.append("] [Details = ");
                    s.append(json.as_str());
                    s.append("]");
                    Some(LogLine { level: LogLevel::Info, message: s })
                },
            }
        },
        Event::ChainAdded { chain_id } => Some(
            LogLine {
                level: LogLevel::Info,
                message: bracket_line("Added new chain [Chain ID = ", chain_id),
            },
        ),
        Event::Warning { message } => Some(
            LogLine { level: LogLevel::Warn, message: message.clone() },
        ),
    }
}

/// Installs `env_logger` as the process's logger, configured from the
/// environment. Nothing is claimed; when a logger is already installed it
/// stays.
#[verifier::external_body]
fn install_env_logger() {
    let _ = env_logger::try_init();
}

/// Event handler that writes every event to the process log.
pub struct EnvLogger {}

impl EnvLogger {
    /// Installs the environment-configured logger and returns the handler.
    pub fn new() -> (r: EnvLogger) {
        install_env_logger();
        EnvLogger {}
    }

    /// The line that this handler logs for `event`.
    pub fn handle(&self, event: &Event) -> (r: Option<LogLine>)
        ensures
            spec_log_line(*event) == (match r {
                Some(l) => Some((l.level, l.message@)),
                None => None,
            }),
    {
        log_line(event)
    }
}

/// What the command line prints for an event in text mode: a bold headline
/// (yellow for a warning), an optional blank line, then a two-column table
/// whose values may be highlighted.
#[derive(Debug, Clone)]
pub struct TextOutput {
    pub headline: String,
    pub warning: bool,
    pub blank_line: bool,
    pub rows: Vec<(String, String)>,
    pub highlight_values: bool,
}

pub ghost struct TextOutputView {
    pub headline: Seq<char>,
    pub warning: bool,
    pub blank_line: bool,
    pub rows: Seq<(Seq<char>, Seq<char>)>,
    pub highlight_values: bool,
}

pub open spec fn text_output_view(t: TextOutput) -> TextOutputView {
    TextOutputView {
        headline: t.headline@,
        warning: t.warning,
        blank_line: t.blank_line,
        rows: Seq::new(t.rows@.len(), |i: int| (t.rows@[i].0@, t.rows@[i].1@)),
        highlight_values: t.highlight_values,
    }
}

pub open spec fn headline_only(headline: Seq<char>) -> TextOutputView {
    TextOutputView {
        headline,
        warning: false,
        blank_line: false,
        rows: Seq::empty(),
        highlight_values: false,
    }
}

pub open spec fn with_table(headline: Seq<char>, rows: Seq<(Seq<char>, Seq<char>)>) -> TextOutputView {
    TextOutputView { headline, warning: false, blank_line: true, rows, highlight_values: false }
}

/// The text-mode output of an event.
pub open spec fn spec_text_output(e: Event) -> TextOutputView {
    match e {
        Event::ChainAdded { chain_id } => TextOutputView {
            headline: "New chain added!"@,
            warning: false,
            blank_line: true,
            rows: seq![("Chain ID"@, chain_id@)],
            highlight_values: true,
        },
        Event::CloseChannelInitOnSoloMachine { chain_id, channel_id } => with_table(
            "Chain channel init closed! [Chain ID = "@ + chain_id@ + "] [Channel ID = "@
                + channel_id@ + "]"@,
            Seq::empty(),
        ),
        Event::TokensMinted { chain_id, request_id, to_address, amount, denom, transaction_hash } =>
        with_table(
            "Tokens minted!"@,
            seq![
                ("Chain ID"@, chain_id@),
                ("Request ID"@, opt_or(request_id, "-"@)),
                ("To"@, to_address@),
                ("Amount"@, amount@),
                ("Denom"@, denom@),
                ("Transaction Hash"@, transaction_hash@),
            ],
        ),
        Event::TokensBurnt {
            chain_id,
            request_id,
            from_address,
            amount,
            denom,
            transaction_hash,
        } => with_table(
            "Tokens burnt!"@,
            seq![
                ("Chain ID"@, chain_id@),
                ("Request ID"@, opt_or(request_id, "-"@)),
                ("From"@, from_address@),
                ("Amount"@, amount@),
                ("Denom"@, denom@),
                ("Transaction Hash"@, transaction_hash@),
            ],
        ),
        Event::SignerUpdated { chain_id, .. } => with_table(
            "Signer updated!"@,
            seq![("Chain ID"@, chain_id@)],
        ),
        Event::ConnectionEstablished { chain_id, connection_details: d } => with_table(
            "Connection established!"@,
            seq![
                ("Chain ID"@, chain_id@),
                ("Solo machine client ID"@, d.solo_machine_client_id@),
                ("Tendermint client ID"@, d.tendermint_client_id@),
                ("Solo machine connection ID"@, d.solo_machine_connection_id@),
                ("Tendermint connection ID"@, d.tendermint_connection_id@),
                ("Solo machine channel ID"@, d.solo_machine_channel_id@),
                ("Tendermint channel ID"@, d.tendermint_channel_id@),
            ],
        ),
        Event::Warning { message } => TextOutputView {
            headline: "WARNING: "@ + message@,
            warning: true,
            blank_line: false,
            rows: Seq::empty(),
            highlight_values: false,
        },
        Event::CreatedSoloMachineClient { .. } | Event::CreatedTendermintClient { .. }
        | Event::InitializedConnectionOnTendermint { .. }
        | Event::InitializedConnectionOnSoloMachine { .. }
        | Event::ConfirmedConnectionOnTendermint { .. }
        | Event::ConfirmedConnectionOnSoloMachine { .. }
        | Event::InitializedChannelOnTendermint { .. } | Event::InitializedChannelOnSoloMachine { .. }
        | Event::ConfirmedChannelOnTendermint { .. }
        | Event::ConfirmedChannelOnSoloMachine { .. } => headline_only(spec_log_line(e).unwrap().1),
    }
}

fn row(title: &str, value: &String) -> (r: (String, String))
    ensures
        r.0@ == title@,
        r.1@ == value@,
{
    (owned(title), value.clone())
}

fn table_output(headline: String, rows: Vec<(String, String)>) -> (r: TextOutput)
    ensures
        r.headline == headline,
        r.rows == rows,
        !r.warning,
        r.blank_line,
        !r.highlight_values,
{
    TextOutput { headline, warning: false, blank_line: true, rows, highlight_values: false }
}

/// What the command line prints for an event in text mode.
pub fn text_output(e: &Event) -> (r: TextOutput)
    ensures
        text_output_view(r) == spec_text_output(*e),
{
    match e {
        Event::ChainAdded { chain_id } => {
            let rows = vec![row("Chain ID", chain_id)];
            let r = TextOutput {
                headline: owned("New chain added!"),
                warning: false,
                blank_line: true,
                rows,
                highlight_values: true,
            };
            assert(text_output_view(r).rows =~= seq![("Chain ID"@, chain_id@)]);
            r
        },
        Event::CloseChannelInitOnSoloMachine { chain_id, channel_id } => {
            let mut s = owned("Chain channel init closed! [Chain ID = ");
            s.append(chain_id.as_str());
            s.append("] [Channel ID = ");
            s.append(channel_id.as_str());
            s.append("]");
            let r = table_output(s, Vec::new());
            assert(text_output_view(r).rows =~= Seq::<(Seq<char>, Seq<char>)>::empty());
            r
        },
        Event::TokensMinted { chain_id, request_id, to_address, amount, denom, transaction_hash } => {
            let rid = opt_str(request_id, "-");
            let rows = vec![
                row("Chain ID", chain_id),
                row("Request ID", &rid),
                row("To", to_address),
                row("Amount", amount),
                row("Denom", denom),
                row("Transaction Hash", transaction_hash),
            ];
            let r = table_output(owned("Tokens minted!"), rows);
            assert(text_output_view(r).rows =~= seq![
                ("Chain ID"@, chain_id@),
                ("Request ID"@, opt_or(*request_id, "-"@)),
                ("To"@, to_address@),
                ("Amount"@, amount@),
                ("Denom"@, denom@),
                ("Transaction Hash"@, transaction_hash@),
            ]);
            r
        },
        Event::TokensBurnt { chain_id, request_id, from_address, amount, denom, transaction_hash } => {
            let rid = opt_str(request_id, "-");
            let rows = vec![
                row("Chain ID", chain_id),
                row("Request ID", &rid),
                row("From", from_address),
                row("Amount", amount),
                row("Denom", denom),
                row("Transaction Hash", transaction_hash),
            ];
            let r = table_output(owned("Tokens burnt!"), rows);
            assert(text_output_view(r).rows =~= seq![
                ("Chain ID"@, chain_id@),
                ("Request ID"@, opt_or(*request_id, "-"@)),
                ("From"@, from_address@),
                ("Amount"@, amount@),
                ("Denom"@, denom@),
                ("Transaction Hash"@, transaction_hash@),
            ]);
            r
        },
        Event::SignerUpdated { chain_id, .. } => {
            let rows = vec![row("Chain ID", chain_id)];
            let r = table_output(owned("Signer updated!"), rows);
            assert(text_output_view(r).rows =~= seq![("Chain ID"@, chain_id@)]);
            r
        },
        Event::ConnectionEstablished { chain_id, connection_details: d } => {
            let rows = vec![
                row("Chain ID", chain_id),
                row("Solo machine client ID", &d.solo_machine_client_id),
                row("Tendermint client ID", &d.tendermint_client_id),
                row("Solo machine connection ID", &d.solo_machine_connection_id),
                row("Tendermint connection ID", &d.tendermint_connection_id),
                row("Solo machine channel ID", &d.solo_machine_channel_id),
                row("Tendermint channel ID", &d.tendermint_channel_id),
            ];
            let r = table_output(owned("Connection established!"), rows);
            assert(text_output_view(r).rows =~= seq![
                ("Chain ID"@, chain_id@),
                ("Solo machine client ID"@, d.solo_machine_client_id@),
                ("Tendermint client ID"@, d.tendermint_client_id@),
                ("Solo machine connection ID"@, d.solo_machine_connection_id@),
                ("Tendermint connection ID"@, d.tendermint_connection_id@),
                ("Solo machine channel ID"@, d.solo_machine_channel_id@),
                ("Tendermint channel ID"@, d.tendermint_channel_id@),
            ]);
            r
        },
        Event::Warning { message } => {
            let mut s = owned("WARNING: ");
            s.append(message.as_str());
            let r = TextOutput {
                headline: s,
                warning: true,
                blank_line: false,
                rows: Vec::new(),
                highlight_values: false,
            };
            assert(text_output_view(r).rows =~= Seq::<(Seq<char>, Seq<char>)>::empty());
            r
        },
        _ => {
            let line = log_line(e);
            match line {
                Some(l) => {
                    let r = TextOutput {
                        headline: l.message,
                        warning: false,
                        blank_line: false,
                        rows: Vec::new(),
                        highlight_values: false,
                    };
                    assert(text_output_view(r).rows =~= Seq::<(Seq<char>, Seq<char>)>::empty());
                    r
                },
                None => {
                    assert(false);
                    TextOutput {
                        headline: String::new(),
                        warning: false,
                        blank_line: false,
                        rows: Vec::new(),
                        highlight_values: false,
                    }
                },
            }
        },
    }
}

/// The table `rows` has a row titled `title`, and every row so titled holds
/// `value`.
pub open spec fn table_shows(
    rows: Seq<(Seq<char>, Seq<char>)>,
    title: Seq<char>,
    value: Seq<char>,
) -> bool {
    &&& exists|i: int| 0 <= i < rows.len() && (#[trigger] rows[i]).0 == title
    &&& forall|i: int| 0 <= i < rows.len() && (#[trigger] rows[i]).0 == title ==> rows[i].1 == value
}

/// The text output of a mint or a burn shows each field of the event under
/// the title that names it: the chain, the request (a dash when there is
/// none), the receiving or sending address, the amount, the denomination and
/// the transaction hash, six rows in all, under the headline of the event.
pub proof fn lemma_token_rows_show_their_fields(e: Event)
    requires
        e is TokensMinted || e is TokensBurnt,
    ensures
        match e {
            Event::TokensMinted {
                chain_id,
                request_id,
                to_address,
                amount,
                denom,
                transaction_hash,
            } => {
                let t = spec_text_output(e);
                &&& t.headline == "Tokens minted!"@
                &&& t.rows.len() == 6
                &&& table_shows(t.rows, "Chain ID"@, chain_id@)
                &&& table_shows(t.rows, "Request ID"@, opt_or(request_id, "-"@))
                &&& table_shows(t.rows, "To"@, to_address@)
                &&& table_shows(t.rows, "Amount"@, amount@)
                &&& table_shows(t.rows, "Denom"@, denom@)
                &&& table_shows(t.rows, "Transaction Hash"@, transaction_hash@)
            },
            Event::TokensBurnt {
                chain_id,
                request_id,
                from_address,
                amount,
                denom,
                transaction_hash,
            } => {
                let t = spec_text_output(e);
                &&& t.headline == "Tokens burnt!"@
                &&& t.rows.len() == 6
                &&& table_shows(t.rows, "Chain ID"@, chain_id@)
                &&& table_shows(t.rows, "Request ID"@, opt_or(request_id, "-"@))
                &&& table_shows(t.rows, "From"@, from_address@)
                &&& table_shows(t.rows, "Amount"@, amount@)
                &&& table_shows(t.rows, "Denom"@, denom@)
                &&& table_shows(t.rows, "Transaction Hash"@, transaction_hash@)
            },
            _ => true,
        },
{
    reveal_strlit("Chain ID");
    reveal_strlit("Request ID");
    reveal_strlit("To");
    reveal_strlit("From");
    reveal_strlit("Amount");
    reveal_strlit("Denom");
    reveal_strlit("Transaction Hash");
    let t = spec_text_output(e);
    assert(t.rows[0].0 == "Chain ID"@);
    assert(t.rows[1].0 == "Request ID"@);
    assert(t.rows[3].0 == "Amount"@);
    assert(t.rows[4].0 == "Denom"@);
    assert(t.rows[5].0 == "Transaction Hash"@);
    assert(t.rows[2].0 == "To"@ || t.rows[2].0 == "From"@);
}

/// The log line of a mint or a burn reports, at level info, the values the
/// text output shows under "Chain ID", "To" or "From", "Amount", "Denom" and
/// "Transaction Hash" (the amount and the denomination in that order), and
/// the request, written `None` where the table shows a dash.
pub proof fn lemma_token_log_line_matches_the_table(e: Event)
    requires
        e is TokensMinted || e is TokensBurnt,
    ensures
        ({
            let t = spec_text_output(e);
            let request = match e {
                Event::TokensMinted { request_id, .. } => opt_or(request_id, "None"@),
                Event::TokensBurnt { request_id, .. } => opt_or(request_id, "None"@),
                _ => Seq::empty(),
            };
            let verb = if e is TokensMinted { "Minted new tokens"@ } else { "Burnt tokens"@ };
            &&& t.rows[0].0 == "Chain ID"@
            &&& t.rows[2].0 == (if e is TokensMinted { "To"@ } else { "From"@ })
            &&& t.rows[3].0 == "Amount"@
            &&& t.rows[4].0 == "Denom"@
            &&& t.rows[5].0 == "Transaction Hash"@
            &&& spec_log_line(e) == Some(
                (
                    LogLevel::Info,
                    verb + " [Chain ID = "@ + t.rows[0].1 + "] [Request ID = "@ + request
                        + "] [Address = "@ + t.rows[2].1 + "] [Amount = "@ + t.rows[3].1 + " "@
                        + t.rows[4].1 + "] [Transaction Hash = "@ + t.rows[5].1 + "]"@,
                ),
            )
        }),
{
    reveal_strlit("Minted new tokens");
    reveal_strlit("Burnt tokens");
    reveal_strlit(" [Chain ID = ");
    reveal_strlit("Minted new tokens [Chain ID = ");
    reveal_strlit("Burnt tokens [Chain ID = ");
    let t = spec_text_output(e);
    let verb = if e is TokensMinted { "Minted new tokens"@ } else { "Burnt tokens"@ };
    if e is TokensMinted {
        assert("Minted new tokens [Chain ID = "@ =~= verb + " [Chain ID = "@);
    } else {
        assert("Burnt tokens [Chain ID = "@ =~= verb + " [Chain ID = "@);
    }
}

/// The text output of an established connection shows the chain and each
/// of the six saved identifiers under the title that names it, seven rows
/// in all.
pub proof fn lemma_connection_rows_show_their_identifiers(
    chain_id: String,
    d: ChainConnectionDetails,
)
    ensures
        ({
            let t = spec_text_output(
                Event::ConnectionEstablished { chain_id, connection_details: d },
            );
            &&& t.headline == "Connection established!"@
            &&& t.rows.len() == 7
            &&& table_shows(t.rows, "Chain ID"@, chain_id@)
            &&& table_shows(t.rows, "Solo machine client ID"@, d.solo_machine_client_id@)
            &&& table_shows(t.rows, "Tendermint client ID"@, d.tendermint_client_id@)
            &&& table_shows(t.rows, "Solo machine connection ID"@, d.solo_machine_connection_id@)
            &&& table_shows(t.rows, "Tendermint connection ID"@, d.tendermint_connection_id@)
            &&& table_shows(t.rows, "Solo machine channel ID"@, d.solo_machine_channel_id@)
            &&& table_shows(t.rows, "Tendermint channel ID"@, d.tendermint_channel_id@)
        }),
{
    reveal_strlit("Chain ID");
    reveal_strlit("Solo machine client ID");
    reveal_strlit("Tendermint client ID");
    reveal_strlit("Solo machine connection ID");
    reveal_strlit("Tendermint connection ID");
    reveal_strlit("Solo machine channel ID");
    reveal_strlit("Tendermint channel ID");
    let t = spec_text_output(Event::ConnectionEstablished { chain_id, connection_details: d });
    assert(t.rows[0].0 == "Chain ID"@);
    assert(t.rows[1].0 == "Solo machine client ID"@);
    assert(t.rows[2].0 == "Tendermint client ID"@);
    assert(t.rows[3].0 == "Solo machine connection ID"@);
    assert(t.rows[4].0 == "Tendermint connection ID"@);
    assert(t.rows[5].0 == "Solo machine channel ID"@);
    assert(t.rows[6].0 == "Tendermint channel ID"@);
}

/// What the command line prints for an event in JSON mode: a `result`
/// field and a `data` field, which for a warning is its message and for
/// any other event the event itself.
#[derive(Debug, Clone)]
pub enum JsonOutput {
    Warning { message: String },
    Success,
}

/// What the command line prints for an event.
#[derive(Debug, Clone)]
pub enum CliOutput {
    Text { color: ColorChoice, output: TextOutput },
    Json { color: ColorChoice, output: JsonOutput },
}

/// Event handler that prints events on the command line, as text or JSON.
pub struct CliEventHandler {
    pub color_choice: ColorChoice,
    pub output: OutputType,
}

impl CliEventHandler {
    pub fn new(color_choice: ColorChoice, output: OutputType) -> (r: CliEventHandler)
        ensures
            r.color_choice == color_choice,
            r.output == output,
    {
        CliEventHandler { color_choice, output }
    }

    /// What this handler prints for `event`: the text output in text mode;
    /// in JSON mode a warning with its message, and any other event as a
    /// success.
    pub fn handle(&self, event: &Event) -> (r: CliOutput)
        ensures
            match self.output {
                OutputType::Text => r matches CliOutput::Text { color, output } && color
                    == self.color_choice && text_output_view(output) == spec_text_output(*event),
                OutputType::Json => r matches CliOutput::Json { color, output } && color
                    == self.color_choice && match *event {
                    Event::Warning { message } => output matches JsonOutput::Warning {
                        message: m,
                    } && m@ == message@,
                    _ => output is Success,
                },
            },
    {
        match self.output {
            OutputType::Text => CliOutput::Text { color: self.color_choice, output: text_output(event) },
            OutputType::Json => {
                let output = match event {
                    Event::Warning { message } => JsonOutput::Warning { message: message.clone() },
                    _ => JsonOutput::Success,
                };
                CliOutput::Json { color: self.color_choice, output }
            },
        }
    }
}

} // verus!
