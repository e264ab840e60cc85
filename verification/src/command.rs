use vstd::prelude::*;
use vstd::utf8::encode_utf8;
use crate::chain::ChainConfigRequest;
use crate::hexcodec::{spec_hex_decode, hex_decode};
use crate::signing::opt_vec_view;
use crate::text::{owned, concat2};

verus! {

/// Whether output is styled.
#[derive(Debug, Clone, Copy, PartialEq, Eq, Structural)]
pub enum ColorChoice {
    /// Never style output.
    Never,
    /// Style output when the terminal supports it.
    Auto,
}

/// `--no-style` turns styling off; otherwise styling follows the terminal.
pub fn color_choice(no_style: bool) -> (r: ColorChoice)
    ensures
        r == (if no_style {
            ColorChoice::Never
        } else {
            ColorChoice::Auto
        }),
{
    if no_style {
        ColorChoice::Never
    } else {
        ColorChoice::Auto
    }
}

/// The sub-commands of the command line.
#[derive(Debug, Clone, Copy, PartialEq, Eq, Structural)]
pub enum CommandKind {
    /// Chain operations (managing chain state and metadata).
    Chain,
    /// Generates completion scripts.
    GenCompletion,
    /// Connects, mints and burns tokens on an IBC enabled chain.
    Ibc,
    /// Initialises the database.
    Init,
    /// Starts the gRPC server.
    Start,
}

/// A setting that a sub-command needs and was not given.
#[derive(Debug, Clone, Copy, PartialEq, Eq, Structural)]
pub enum CommandError {
    SignerRequiredForChain,
    SignerRequiredForIbc,
    SignerRequiredForServer,
    DbPathRequired,
}

impl CommandError {
    /// The message reported for the error.
    pub fn message(&self) -> (r: String)
        ensures
            r@ == (match *self {
                CommandError::SignerRequiredForChain => "`signer` is required for chain commands"@,
                CommandError::SignerRequiredForIbc => "`signer` is required for ibc commands"@,
                CommandError::SignerRequiredForServer => "`signer` is required for gRPC server"@,
                CommandError::DbPathRequired => "`db-path` is required"@,
            }),
    {
        match self {
            CommandError::SignerRequiredForChain => owned("`signer` is required for chain commands"),
            CommandError::SignerRequiredForIbc => owned("`signer` is required for ibc commands"),
            CommandError::SignerRequiredForServer => owned("`signer` is required for gRPC server"),
            CommandError::DbPathRequired => owned("`db-path` is required"),
        }
    }
}

/// The first missing setting of a sub-command: the chain, ibc and start
/// commands need a signer, then a database path; init needs a database
/// path; completion generation needs nothing.
pub open spec fn spec_command_error(kind: CommandKind, has_signer: bool, has_db_path: bool) -> Option<
    CommandError,
> {
    match kind {
        CommandKind::Chain => if !has_signer {
            Some(CommandError::SignerRequiredForChain)
        } else if !has_db_path {
            Some(CommandError::DbPathRequired)
        } else {
            None
        },
        CommandKind::Ibc => if !has_signer {
            Some(CommandError::SignerRequiredForIbc)
        } else if !has_db_path {
            Some(CommandError::DbPathRequired)
        } else {
            None
        },
        CommandKind::Start => if !has_signer {
            Some(CommandError::SignerRequiredForServer)
        } else if !has_db_path {
            Some(CommandError::DbPathRequired)
        } else {
            None
        },
        CommandKind::Init => if !has_db_path {
            Some(CommandError::DbPathRequired)
        } else {
            None
        },
        CommandKind::GenCompletion => None,
    }
}

/// What running a sub-command takes, in order: create the database file,
/// connect to the database, run the migrations, spawn the event handlers
/// (the styled command line handler, when asked, registered after the
/// handlers loaded from files), load the signer, then run the sub-command
/// itself.
#[derive(Debug, Clone)]
pub struct CommandPlan {
    pub kind: CommandKind,
    pub color: ColorChoice,
    pub create_db_file: Option<String>,
    pub db_url: Option<String>,
    pub run_migrations: bool,
    pub spawn_handlers: bool,
    pub register_cli_handler: bool,
    /// The event handlers to register, in the order in which they handle
    /// each event.
    pub handlers: Vec<HandlerSource>,
    pub signer_path: Option<String>,
}

/// Where an event handler comes from: a dynamic library given on the
/// command line, or the styled command line handler itself.
#[derive(Debug, Clone)]
pub enum HandlerSource {
    File(String),
    CommandLine,
}

/// A handler's library path, or `None` for the command line handler.
pub open spec fn source_view(h: HandlerSource) -> Option<Seq<char>> {
    match h {
        HandlerSource::File(path) => Some(path@),
        HandlerSource::CommandLine => None,
    }
}

/// The handlers of a run, in order: those loaded from `files`, in the order
/// given, then the command line handler when `cli` is set.
pub open spec fn handler_order(files: Seq<String>, cli: bool) -> Seq<Option<Seq<char>>> {
    files.map_values(|f: String| Some(f@)) + (if cli {
        seq![None::<Seq<char>>]
    } else {
        Seq::<Option<Seq<char>>>::empty()
    })
}

/// The database connection string of a database path.
pub open spec fn db_url_of(db_path: Seq<char>) -> Seq<char> {
    "sqlite:"@ + db_path
}

pub open spec fn opt_str_view(o: Option<String>) -> Option<Seq<char>> {
    match o {
        Some(s) => Some(s@),
        None => None,
    }
}

/// The plan of `kind` given the settings.
pub open spec fn plan_matches(
    kind: CommandKind,
    no_style: bool,
    db_path: Option<String>,
    signer: Option<String>,
    handler_files: Seq<String>,
    p: CommandPlan,
) -> bool {
    let uses_db = kind != CommandKind::GenCompletion;
    let uses_signer = kind == CommandKind::Chain || kind == CommandKind::Ibc || kind
        == CommandKind::Start;
    &&& p.kind == kind
    &&& p.color == (if no_style {
        ColorChoice::Never
    } else {
        ColorChoice::Auto
    })
    &&& opt_str_view(p.create_db_file) == (if kind == CommandKind::Init {
        opt_str_view(db_path)
    } else {
        None
    })
    &&& opt_str_view(p.db_url) == (if uses_db {
        Some(db_url_of(db_path->0@))
    } else {
        None
    })
    &&& p.run_migrations == (kind == CommandKind::Init)
    &&& p.spawn_handlers == uses_signer
    &&& p.register_cli_handler == (kind == CommandKind::Chain || kind == CommandKind::Ibc)
    &&& p.handlers@.map_values(|h: HandlerSource| source_view(h)) == (if uses_signer {
        handler_order(handler_files, p.register_cli_handler)
    } else {
        Seq::<Option<Seq<char>>>::empty()
    })
    &&& opt_str_view(p.signer_path) == (if uses_signer {
        opt_str_view(signer)
    } else {
        None
    })
}

/// The handlers loaded from `files`, in order, then the command line handler
/// when `cli` is set.
fn handler_sources(files: &Vec<String>, cli: bool) -> (r: Vec<HandlerSource>)
    ensures
        r@.map_values(|h: HandlerSource| source_view(h)) == handler_order(files@, cli),
{
    let mut r: Vec<HandlerSource> = Vec::new();
    let mut i: usize = 0;
    while i < files.len()
        invariant
            i <= files@.len(),
            r@.map_values(|h: HandlerSource| source_view(h)) =~= files@.take(i as int).map_values(
                |f: String| Some(f@),
            ),
        decreases files@.len() - i,
    {
        let ghost prev = r@;
        let path = files[i].clone();
        assert(path@ == files@[i as int]@);
        r.push(HandlerSource::File(path));
        proof {
            assert(files@.take(i as int + 1) =~= files@.take(i as int).push(files@[i as int]));
            assert(r@ =~= prev.push(HandlerSource::File(path)));
            assert(r@.map_values(|h: HandlerSource| source_view(h)) =~= prev.map_values(
                |h: HandlerSource| source_view(h),
            ).push(Some(path@)));
            assert(files@.take(i as int + 1).map_values(|f: String| Some(f@)) =~= files@.take(
                i as int,
            ).map_values(|f: String| Some(f@)).push(Some(files@[i as int]@)));
        }
        i = i + 1;
    }
    proof {
        assert(files@.take(i as int) =~= files@);
    }
    let ghost before = r@;
    if cli {
        r.push(HandlerSource::CommandLine);
        assert(r@.map_values(|h: HandlerSource| source_view(h)) =~= before.map_values(
            |h: HandlerSource| source_view(h),
        ) + seq![None::<Seq<char>>]);
    } else {
        assert(handler_order(files@, cli) =~= files@.map_values(|f: String| Some(f@)));
    }
    r
}

/// Checks the settings a sub-command needs and plans its run. Refused with
/// the first missing setting, if any.
pub fn plan_command(
    kind: CommandKind,
    no_style: bool,
    db_path: &Option<String>,
    signer: &Option<String>,
    handler_files: &Vec<String>,
) -> (r: Result<CommandPlan, CommandError>)
    ensures
        match spec_command_error(kind, signer is Some, db_path is Some) {
            Some(e) => r == Err::<CommandPlan, CommandError>(e),
            None => r matches Ok(p) && plan_matches(
                kind,
                no_style,
                *db_path,
                *signer,
                handler_files@,
                p,
            ),
        },
{
    let has_signer = signer.is_some();
    let has_db_path = db_path.is_some();
    match kind {
        CommandKind::Chain => {
            if !has_signer {
                return Err(CommandError::SignerRequiredForChain);
            }
        },
        CommandKind::Ibc => {
            if !has_signer {
                return Err(CommandError::SignerRequiredForIbc);
            }
        },
        CommandKind::Start => {
            if !has_signer {
                return Err(CommandError::SignerRequiredForServer);
            }
        },
        _ => {},
    }
    if kind != CommandKind::GenCompletion && !has_db_path {
        return Err(CommandError::DbPathRequired);
    }
    let uses_signer = kind == CommandKind::Chain || kind == CommandKind::Ibc || kind
        == CommandKind::Start;
    let db_url = match db_path {
        Some(path) => {
            if kind != CommandKind::GenCompletion {
                Some(concat2("sqlite:", path.as_str()))
            } else {
                None
            }
        },
        None => None,
    };
    let create_db_file = if kind == CommandKind::Init {
        db_path.clone()
    } else {
        None
    };
    let signer_path = if uses_signer {
        signer.clone()
    } else {
        None
    };
    let register_cli_handler = kind == CommandKind::Chain || kind == CommandKind::Ibc;
    let handlers = if uses_signer {
        handler_sources(handler_files, register_cli_handler)
    } else {
        Vec::new()
    };
    proof {
        if !uses_signer {
            assert(handlers@.map_values(|h: HandlerSource| source_view(h)) =~= Seq::<
                Option<Seq<char>>,
            >::empty());
        }
    }
    Ok(
        CommandPlan {
            kind,
            color: color_choice(no_style),
            create_db_file,
            db_url,
            run_migrations: kind == CommandKind::Init,
            spawn_handlers: uses_signer,
            register_cli_handler,
            handlers,
            signer_path,
        },
    )
}

/// The chain operations of the command line.
#[derive(Debug, Clone)]
pub enum ChainCommand {
    /// Adds metadata for a new IBC enabled chain.
    Add { config: ChainConfigRequest },
    /// Shows the details kept about a chain.
    Show { chain_id: String },
    /// Shows the IBC denomination of a denomination on a chain.
    IbcDenom { chain_id: String, denom: String },
    /// Shows the signer's balance of a denomination on a chain.
    Balance { chain_id: String, denom: String },
}

/// The `chain` sub-command.
#[derive(Debug, Clone)]
pub struct ChainSubCommand {
    pub subcommand: ChainCommand,
}

/// Algorithms of a signer's public key.
#[derive(Debug, Clone, Copy, PartialEq, Eq, Structural)]
pub enum PublicKeyAlgo {
    Secp256k1,
    EthSecp256k1,
}

/// The operations of the `ibc` sub-command.
#[derive(Debug, Clone)]
pub enum IbcCommand {
    /// Establishes a connection with an IBC enabled chain.
    Connect { chain_id: String, memo: String, force: bool },
    /// Mints tokens on an IBC enabled chain.
    Mint {
        chain_id: String,
        amount: u32,
        denom: String,
        receiver: Option<String>,
        memo: String,
        request_id: Option<String>,
    },
    /// Burns tokens on an IBC enabled chain.
    Burn {
        chain_id: String,
        amount: u32,
        denom: String,
        memo: String,
        request_id: Option<String>,
    },
    /// Updates the signer's public key on an IBC enabled chain.
    UpdateSigner {
        chain_id: String,
        new_public_key: String,
        public_key_algo: PublicKeyAlgo,
        memo: String,
    },
    /// Shows the history of operations.
    History { limit: u32, offset: u32 },
}

/// Why a new public key was refused.
#[derive(Debug, Clone, Copy, PartialEq, Eq, Structural)]
pub enum PublicKeyError {
    /// The key is not hexadecimal text.
    InvalidHex,
    /// The bytes are no SEC1 encoded secp256k1 point.
    InvalidKey,
}

/// A public key of a signer: its algorithm and the compressed SEC1 encoding
/// of its point.
#[derive(Debug, Clone)]
pub struct PublicKey {
    pub algo: PublicKeyAlgo,
    pub compressed: Vec<u8>,
}

/// The compressed SEC1 encoding of the secp256k1 point that `bytes` encode
/// (compressed or not); `None` when they encode no point of the curve.
pub uninterp spec fn sec1_compressed_point(bytes: Seq<u8>) -> Option<Seq<u8>>;

/// Reads a SEC1 encoded public key with `k256::ecdsa::VerifyingKey::from_sec1_bytes`
/// and gives its compressed encoding (`to_bytes`). Claimed: the result is
/// [`sec1_compressed_point`] of the bytes, and nothing more.
#[verifier::external_body]
fn compressed_public_key(bytes: &[u8]) -> (r: Option<Vec<u8>>)
    ensures
        opt_vec_view(r) == sec1_compressed_point(bytes@),
{
    let key = k256::ecdsa::VerifyingKey::from_sec1_bytes(bytes).ok()?;
    Some(key.to_bytes().to_vec())
}

/// The new public key of an update-signer command: hexadecimal text of a
/// SEC1 encoded secp256k1 point.
pub open spec fn spec_new_public_key(hex_text: Seq<char>, algo: PublicKeyAlgo) -> Result<
    (PublicKeyAlgo, Seq<u8>),
    PublicKeyError,
> {
    match spec_hex_decode(encode_utf8(hex_text)) {
        None => Err(PublicKeyError::InvalidHex),
        Some(bytes) => match sec1_compressed_point(bytes) {
            None => Err(PublicKeyError::InvalidKey),
            Some(point) => Ok((algo, point)),
        },
    }
}

/// Reads the new public key of an update-signer command.
pub fn new_public_key(hex_text: &str, algo: PublicKeyAlgo) -> (r: Result<PublicKey, PublicKeyError>)
    ensures
        match spec_new_public_key(hex_text@, algo) {
            Ok((a, point)) => r matches Ok(k) && k.algo == a && k.compressed@ == point,
            Err(e) => r == Err::<PublicKey, PublicKeyError>(e),
        },
{
    let bytes = hex_text.as_bytes_vec();
    match hex_decode(bytes.as_slice()) {
        None => Err(PublicKeyError::InvalidHex),
        Some(decoded) => match compressed_public_key(decoded.as_slice()) {
            None => Err(PublicKeyError::InvalidKey),
            Some(point) => Ok(PublicKey { algo, compressed: point }),
        },
    }
}

/// Kinds of token operations recorded by the solo machine.
#[derive(Debug, Clone, Copy, PartialEq, Eq, Structural)]
pub enum OperationType {
    Mint,
    Burn,
}

/// Colours of table cells.
#[derive(Debug, Clone, Copy, PartialEq, Eq, Structural)]
pub enum TableColor {
    Green,
    Red,
}

/// Mints show green, burns red.
pub fn get_color_for_operation_type(operation_type: &OperationType) -> (r: TableColor)
    ensures
        r == (match *operation_type {
            OperationType::Mint => TableColor::Green,
            OperationType::Burn => TableColor::Red,
        }),
{
    match operation_type {
        OperationType::Mint => TableColor::Green,
        OperationType::Burn => TableColor::Red,
    }
}

/// A recorded token operation, its fields in display form.
#[derive(Debug, Clone)]
pub struct Operation {
    pub id: String,
    pub request_id: Option<String>,
    pub address: String,
    pub denom: String,
    pub amount: String,
    pub operation_type: OperationType,
    pub operation_type_text: String,
    pub transaction_hash: String,
    pub created_at: String,
}

/// A cell of the history table.
#[derive(Debug, Clone)]
pub struct TableCell {
    pub text: String,
    pub right_aligned: bool,
    pub bold: bool,
    pub color: Option<TableColor>,
}

pub open spec fn cell_is(c: TableCell, text: Seq<char>, right_aligned: bool, bold: bool, color: Option<TableColor>) -> bool {
    &&& c.text@ == text
    &&& c.right_aligned == right_aligned
    &&& c.bold == bold
    &&& c.color == color
}

fn cell(text: String, right_aligned: bool, bold: bool, color: Option<TableColor>) -> (r: TableCell)
    ensures
        cell_is(r, text@, right_aligned, bold, color),
{
    TableCell { text, right_aligned, bold, color }
}

/// The cells of the history table row of `operation`: id and amount right
/// aligned, a missing request id shown as `-`, the type coloured by its
/// kind.
pub open spec fn row_of(r: Seq<TableCell>, operation: Operation) -> bool {
    &&& r.len() == 8
    &&& cell_is(r[0], operation.id@, true, false, None)
    &&& cell_is(
        r[1],
        match operation.request_id {
            Some(id) => id@,
            None => "-"@,
        },
        false,
        false,
        None,
    )
    &&& cell_is(r[2], operation.address@, false, false, None)
    &&& cell_is(r[3], operation.denom@, false, false, None)
    &&& cell_is(r[4], operation.amount@, true, false, None)
    &&& cell_is(
        r[5],
        operation.operation_type_text@,
        false,
        false,
        Some(
            match operation.operation_type {
                OperationType::Mint => TableColor::Green,
                OperationType::Burn => TableColor::Red,
            },
        ),
    )
    &&& cell_is(r[6], operation.transaction_hash@, false, false, None)
    &&& cell_is(r[7], operation.created_at@, false, false, None)
}

/// The history table row of an operation (see [`row_of`]).
pub fn into_row(operation: &Operation) -> (r: Vec<TableCell>)
    ensures
        row_of(r@, *operation),
{
    let color = get_color_for_operation_type(&operation.operation_type);
    let request_id = match &operation.request_id {
        Some(id) => id.clone(),
        None => owned("-"),
    };
    let mut row: Vec<TableCell> = Vec::new();
    row.push(cell(operation.id.clone(), true, false, None));
    row.push(cell(request_id, false, false, None));
    row.push(cell(operation.address.clone(), false, false, None));
    row.push(cell(operation.denom.clone(), false, false, None));
    row.push(cell(operation.amount.clone(), true, false, None));
    row.push(cell(operation.operation_type_text.clone(), false, false, Some(color)));
    row.push(cell(operation.transaction_hash.clone(), false, false, None));
    row.push(cell(operation.created_at.clone(), false, false, None));
    row
}

/// The rows of the history table: one per operation, in the operations'
/// order.
pub fn history_rows(operations: &Vec<Operation>) -> (r: Vec<Vec<TableCell>>)
    ensures
        r@.len() == operations@.len(),
        forall|i: int| 0 <= i < r@.len() ==> #[trigger] row_of(r@[i]@, operations@[i]),
{
    let mut rows: Vec<Vec<TableCell>> = Vec::new();
    let mut i: usize = 0;
    while i < operations.len()
        invariant
            i <= operations@.len(),
            rows@.len() == i,
            forall|j: int| 0 <= j < i ==> #[trigger] row_of(rows@[j]@, operations@[j]),
        decreases operations@.len() - i,
    {
        rows.push(into_row(&operations[i]));
        i = i + 1;
    }
    rows
}

/// The bold titles of the history table's columns.
pub open spec fn history_title_row(r: Seq<TableCell>) -> bool {
    &&& r.len() == 8
    &&& cell_is(r[0], "ID"@, false, true, None)
    &&& cell_is(r[1], "Request ID"@, false, true, None)
    &&& cell_is(r[2], "Address"@, false, true, None)
    &&& cell_is(r[3], "Denom"@, false, true, None)
    &&& cell_is(r[4], "Amount"@, false, true, None)
    &&& cell_is(r[5], "Type"@, false, true, None)
    &&& cell_is(r[6], "Transaction Hash"@, false, true, None)
    &&& cell_is(r[7], "Time"@, false, true, None)
}

/// In the history table every cell of an operation's row stands under the
/// title that names its field: the id, the request (a dash when there is
/// none), the address, the denomination, the amount, the type, the
/// transaction hash and the time.
pub proof fn lemma_history_cells_under_their_titles(
    title: Seq<TableCell>,
    row: Seq<TableCell>,
    operation: Operation,
)
    requires
        history_title_row(title),
        row_of(row, operation),
    ensures
        title.len() == row.len(),
        forall|i: int|
            0 <= i < title.len() ==> {
                &&& (#[trigger] title[i]).text@ == "ID"@ ==> row[i].text@ == operation.id@
                &&& title[i].text@ == "Request ID"@ ==> row[i].text@ == (match operation.request_id {
                    Some(id) => id@,
                    None => "-"@,
                })
                &&& title[i].text@ == "Address"@ ==> row[i].text@ == operation.address@
                &&& title[i].text@ == "Denom"@ ==> row[i].text@ == operation.denom@
                &&& title[i].text@ == "Amount"@ ==> row[i].text@ == operation.amount@
                &&& title[i].text@ == "Type"@ ==> row[i].text@ == operation.operation_type_text@
                &&& title[i].text@ == "Transaction Hash"@ ==> row[i].text@
                    == operation.transaction_hash@
                &&& title[i].text@ == "Time"@ ==> row[i].text@ == operation.created_at@
            },
{
    reveal_strlit("ID");
    reveal_strlit("Request ID");
    reveal_strlit("Address");
    reveal_strlit("Denom");
    reveal_strlit("Amount");
    reveal_strlit("Type");
    reveal_strlit("Transaction Hash");
    reveal_strlit("Time");
    assert("Type"@ != "Time"@) by { assert("Type"@[1] != "Time"@[1]); }
    assert("ID"@.len() == 2 && "Request ID"@.len() == 10 && "Address"@.len() == 7
        && "Denom"@.len() == 5 && "Amount"@.len() == 6 && "Type"@.len() == 4
        && "Transaction Hash"@.len() == 16 && "Time"@.len() == 4);
    assert forall|i: int| 0 <= i < title.len() implies {
        &&& (#[trigger] title[i]).text@ == "ID"@ ==> row[i].text@ == operation.id@
        &&& title[i].text@ == "Request ID"@ ==> row[i].text@ == (match operation.request_id {
            Some(id) => id@,
            None => "-"@,
        })
        &&& title[i].text@ == "Address"@ ==> row[i].text@ == operation.address@
        &&& title[i].text@ == "Denom"@ ==> row[i].text@ == operation.denom@
        &&& title[i].text@ == "Amount"@ ==> row[i].text@ == operation.amount@
        &&& title[i].text@ == "Type"@ ==> row[i].text@ == operation.operation_type_text@
        &&& title[i].text@ == "Transaction Hash"@ ==> row[i].text@ == operation.transaction_hash@
        &&& title[i].text@ == "Time"@ ==> row[i].text@ == operation.created_at@
    } by {
        if i == 0 {
            assert(title[0].text@ == "ID"@);
        } else if i == 1 {
            assert(title[1].text@ == "Request ID"@);
        } else if i == 2 {
            assert(title[2].text@ == "Address"@);
        } else if i == 3 {
            assert(title[3].text@ == "Denom"@);
        } else if i == 4 {
            assert(title[4].text@ == "Amount"@);
        } else if i == 5 {
            assert(title[5].text@ == "Type"@);
        } else if i == 6 {
            assert(title[6].text@ == "Transaction Hash"@);
        } else {
            assert(title[7].text@ == "Time"@);
        }
    }
}

/// The bold title row of the history table.
pub fn history_title() -> (r: Vec<TableCell>)
    ensures
        history_title_row(r@),
{
    let mut row: Vec<TableCell> = Vec::new();
    row.push(cell(owned("ID"), false, true, None));
    row.push(cell(owned("Request ID"), false, true, None));
    row.push(cell(owned("Address"), false, true, None));
    row.push(cell(owned("Denom"), false, true, None));
    row.push(cell(owned("Amount"), false, true, None));
    row.push(cell(owned("Type"), false, true, None));
    row.push(cell(owned("Transaction Hash"), false, true, None));
    row.push(cell(owned("Time"), false, true, None));
    row
}

} // verus!
