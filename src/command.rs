use vstd::prelude::*;
use vstd::string::StringExecFns;

use crate::address::{
    checksum_of, decoded_input, decodes_to_length, format_address, is_address_spelling,
    is_parse_fault, parse_address, parse_hash32, Address, TxHash,
};
use crate::decimal::{decimal_text, decimal_text_of, digits_value, explains, is_u64_text, parse_u64, unsigned_digits};
use crate::error::{AddressRole, RuthError};
use crate::hex_text::hex_encoded;
use crate::random::{random_address, random_bytes};
use crate::text::{chars_of, with_hex_prefix};

verus! {

/// A command of the tool, with its raw arguments.
pub enum Command {
    /// Print `count` fresh checksummed addresses, one per line.
    RandomAddress { count: u32 },
    /// Print `length` random bytes as `0x`-prefixed hex.
    RandomBytes { length: u32 },
    /// Print a block, or the chain height where `number` is the word `number`.
    GetBlock { number: String },
    /// Print a transaction given its hash.
    GetTx { tx_hash: String },
    /// Send a transaction from and to the given addresses, or the node's first account.
    Send { from: Option<String>, to: Option<String>, value: Option<u64> },
}

/// What a block argument asks for.
#[derive(Clone, Copy, Debug, PartialEq, Eq)]
pub enum BlockQuery {
    /// The current chain height.
    Height,
    /// The block with this number.
    Number(u64),
}

/// A call that a command needs the node to answer.
pub enum Request {
    BlockNumber,
    Block(u64),
    Transaction(TxHash),
    Accounts,
}

/// What to do next for a command.
pub enum Step {
    /// Print these lines on the output stream; the command is done.
    Print(Vec<String>),
    /// Make this call to the node.
    Ask(Request),
}

/// A transaction ready to submit.
#[derive(Clone, Copy, Debug, PartialEq, Eq)]
pub struct SendRequest {
    pub from: Address,
    pub to: Address,
    pub value: Option<u64>,
}

/// Reads a block argument: the word `number`, or an unsigned decimal block number.
pub fn parse_block_query(number: &str) -> (r: Result<BlockQuery, RuthError>)
    ensures
        number@ == "number"@ ==> r == Ok::<BlockQuery, RuthError>(BlockQuery::Height),
        number@ != "number"@ && is_u64_text(number@) ==> r == Ok::<BlockQuery, RuthError>(
            BlockQuery::Number(digits_value(unsigned_digits(number@)) as u64),
        ),
        number@ != "number"@ && !is_u64_text(number@) ==> (r matches Err(
            RuthError::ParseError { input, fault },
        ) && input@ == number@ && explains(fault, number@)),
{
    let given = number.to_owned();
    if given == "number".to_owned() {
        return Ok(BlockQuery::Height);
    }
    match parse_u64(&chars_of(number)) {
        Ok(n) => Ok(BlockQuery::Number(n)),
        Err(fault) => Err(RuthError::ParseError { input: given, fault }),
    }
}

/// A given address argument is absent or parses.
pub open spec fn address_arg_ok(given: Option<String>) -> bool {
    match given {
        Some(g) => decodes_to_length(g@, 20),
        None => true,
    }
}

/// The address that an argument names, or `default` where it is absent.
pub open spec fn address_arg(given: Option<String>, default: Address) -> Seq<u8> {
    match given {
        Some(g) => decoded_input(g@),
        None => default@,
    }
}

/// `e` is the error owed for a given address argument, in the given role, that does not parse.
pub open spec fn is_arg_fault(e: RuthError, role: AddressRole, given: Option<String>) -> bool {
    match given {
        Some(g) => e matches RuthError::InvalidAddress { role: r, input, cause } && r == role
            && input@ == g@ && is_parse_fault(*cause, g@, 20),
        None => false,
    }
}

fn pick_address(given: &Option<String>, role: AddressRole, default: Address) -> (r: Result<
    Address,
    RuthError,
>)
    ensures
        r is Ok <==> address_arg_ok(*given),
        r matches Ok(a) ==> a@ == address_arg(*given, default),
        r matches Err(e) ==> is_arg_fault(e, role, *given),
{
    match given {
        Some(g) => match parse_address(g.as_str()) {
            Ok(a) => Ok(a),
            Err(e) => Err(RuthError::InvalidAddress { role, input: g.clone(), cause: Box::new(e) }),
        },
        None => Ok(default),
    }
}

/// Builds the transaction to send once the node has listed its accounts: the first
/// account stands in for a missing sender or recipient.
pub fn plan_send(
    from: &Option<String>,
    to: &Option<String>,
    value: Option<u64>,
    accounts: &Vec<Address>,
) -> (r: Result<SendRequest, RuthError>)
    ensures
        r is Ok <==> accounts@.len() > 0 && address_arg_ok(*from) && address_arg_ok(*to),
        r matches Ok(q) ==> q.from@ == address_arg(*from, accounts@[0]) && q.to@ == address_arg(
            *to,
            accounts@[0],
        ) && q.value == value,
        accounts@.len() == 0 ==> r matches Err(RuthError::NoUnlockedAccounts),
        accounts@.len() > 0 && !address_arg_ok(*from) ==> (r matches Err(e) && is_arg_fault(
            e,
            AddressRole::From,
            *from,
        )),
        accounts@.len() > 0 && address_arg_ok(*from) && !address_arg_ok(*to) ==> (r matches Err(e)
            && is_arg_fault(e, AddressRole::To, *to)),
{
    if accounts.len() == 0 {
        return Err(RuthError::NoUnlockedAccounts);
    }
    let first = accounts[0];
    let from_address = match pick_address(from, AddressRole::From, first) {
        Ok(a) => a,
        Err(e) => return Err(e),
    };
    let to_address = match pick_address(to, AddressRole::To, first) {
        Ok(a) => a,
        Err(e) => return Err(e),
    };
    Ok(SendRequest { from: from_address, to: to_address, value })
}

/// `line` is the checksummed text of some address.
pub open spec fn is_checksum_line(line: Seq<char>) -> bool {
    exists|a: Seq<u8>| a.len() == 20 && line == #[trigger] checksum_of(a) && is_address_spelling(line, a)
}

/// `count` fresh addresses, each checksummed and prefixed with `0x`.
pub fn random_address_lines(count: u32) -> (r: Vec<String>)
    ensures
        r@.len() == count,
        forall|i: int| 0 <= i < r@.len() ==> is_checksum_line(#[trigger] r@[i]@),
{
    let mut r: Vec<String> = Vec::new();
    for i in 0..count
        invariant
            r@.len() == i,
            forall|k: int| 0 <= k < r@.len() ==> is_checksum_line(#[trigger] r@[k]@),
    {
        let a = random_address();
        let line = format_address(&a, true);
        assert(a@.len() == 20 && line@ == checksum_of(a@));
        r.push(line);
    }
    r
}

/// `length` random bytes as lowercase hex after `0x`.
pub fn random_bytes_line(length: u32) -> (r: String)
    ensures
        r@.len() == 2 * length + 2,
        r@.take(2) == seq!['0', 'x'],
        exists|b: Seq<u8>| b.len() == length && r@ == seq!['0', 'x'] + #[trigger] hex_encoded(b),
{
    let digits = random_bytes(length);
    let r = with_hex_prefix(digits.as_str());
    assert(r@.take(2) =~= seq!['0', 'x']);
    r
}

/// The first step of a command: local commands print at once, the others ask the
/// node, and a bad argument stops the command before any call is made.
pub fn begin(cmd: &Command) -> (r: Result<Step, RuthError>)
    ensures
        cmd matches Command::RandomAddress { count } ==> r matches Ok(Step::Print(lines))
            && lines@.len() == count && forall|i: int|
            0 <= i < lines@.len() ==> is_checksum_line(#[trigger] lines@[i]@),
        cmd matches Command::RandomBytes { length } ==> r matches Ok(Step::Print(lines))
            && lines@.len() == 1 && lines@[0]@.len() == 2 * *length + 2 && lines@[0]@.take(2)
            == seq!['0', 'x'] && exists|b: Seq<u8>|
            b.len() == *length && lines@[0]@ == seq!['0', 'x'] + #[trigger] hex_encoded(b),
        cmd matches Command::GetBlock { number } ==> {
            if number@ == "number"@ {
                r matches Ok(Step::Ask(Request::BlockNumber))
            } else if is_u64_text(number@) {
                r matches Ok(Step::Ask(Request::Block(n))) && n == digits_value(
                    unsigned_digits(number@),
                )
            } else {
                r matches Err(RuthError::ParseError { input, fault }) && input@ == number@
                    && explains(fault, number@)
            }
        },
        cmd matches Command::GetTx { tx_hash } ==> {
            if decodes_to_length(tx_hash@, 32) {
                r matches Ok(Step::Ask(Request::Transaction(h))) && h@ == decoded_input(tx_hash@)
            } else {
                r matches Err(e) && is_parse_fault(e, tx_hash@, 32)
            }
        },
        cmd matches Command::Send { .. } ==> r matches Ok(Step::Ask(Request::Accounts)),
{
    match cmd {
        Command::RandomAddress { count } => Ok(Step::Print(random_address_lines(*count))),
        Command::RandomBytes { length } => {
            let mut lines: Vec<String> = Vec::new();
            lines.push(random_bytes_line(*length));
            Ok(Step::Print(lines))
        },
        Command::GetBlock { number } => match parse_block_query(number.as_str()) {
            Ok(BlockQuery::Height) => Ok(Step::Ask(Request::BlockNumber)),
            Ok(BlockQuery::Number(n)) => Ok(Step::Ask(Request::Block(n))),
            Err(e) => Err(e),
        },
        Command::GetTx { tx_hash } => match parse_hash32(tx_hash.as_str()) {
            Ok(h) => Ok(Step::Ask(Request::Transaction(h))),
            Err(e) => Err(e),
        },
        Command::Send { .. } => Ok(Step::Ask(Request::Accounts)),
    }
}

/// The line printed after a transaction is sent: its hash as `0x`-prefixed hex.
pub fn sent_line(h: &TxHash) -> (r: String)
    ensures
        r@ == seq!['0', 'x'] + hex_encoded(h@),
{
    crate::address::format_tx_hash(h)
}

/// The diagnostic for a block that the node does not have, naming its number.
pub fn block_not_found_message(number: u64) -> (r: String)
    ensures
        r@ == "Block `"@ + decimal_text_of(number as nat) + "` not found"@,
{
    let mut r = String::from_str("Block `");
    r.append(decimal_text(number).as_str());
    r.append("` not found");
    r
}

/// The diagnostic for a transaction that the node does not have, naming the hash asked for.
pub fn tx_not_found_message(tx_hash: &str) -> (r: String)
    ensures
        r@ == "Transaction with hash `"@ + tx_hash@ + "` not found"@,
{
    let mut r = String::from_str("Transaction with hash `");
    r.append(tx_hash);
    r.append("` not found");
    r
}

/// A line to show, and the stream it belongs on.
pub enum Report {
    /// The command's result, for the output stream.
    Output(String),
    /// A notice for the diagnostic stream; nothing goes on the output stream.
    Diagnostic(String),
}

/// What to show once the node has answered a block query: the block's JSON text where
/// the block was found, else a not-found notice naming its number.
pub fn block_report(json: Option<String>, number: u64) -> (r: Report)
    ensures
        json matches Some(j) ==> (r matches Report::Output(o) && o@ == j@),
        json is None ==> (r matches Report::Diagnostic(m) && m@ == "Block `"@ + decimal_text_of(
            number as nat,
        ) + "` not found"@),
{
    match json {
        Some(j) => Report::Output(j),
        None => Report::Diagnostic(block_not_found_message(number)),
    }
}

/// What to show once the node has answered a transaction query: the transaction's JSON
/// text where it was found, else a not-found notice naming the hash as it was asked for.
pub fn tx_report(json: Option<String>, tx_hash: &str) -> (r: Report)
    ensures
        json matches Some(j) ==> (r matches Report::Output(o) && o@ == j@),
        json is None ==> (r matches Report::Diagnostic(m) && m@ == "Transaction with hash `"@
            + tx_hash@ + "` not found"@),
{
    match json {
        Some(j) => Report::Output(j),
        None => Report::Diagnostic(tx_not_found_message(tx_hash)),
    }
}

} // verus!
