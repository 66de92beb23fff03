use vstd::prelude::*;
use vstd::string::StringExecFns;

verus! {

/// The base58 text of a byte string.
pub uninterp spec fn base58_of(b: Seq<u8>) -> Seq<char>;

/// Relies on `bs58::encode(..).into_string()`: the base58 text of the bytes, in the
/// Bitcoin alphabet.
#[verifier::external_body]
fn encode_base58(b: &[u8]) -> (r: String)
    ensures
        r@ == base58_of(b@),
{
    bs58::encode(b).into_string()
}

/// The sink line for a transaction received on the raw stream, given the base58 text
/// of its signature.
pub open spec fn signature_line_spec(signature_text: Seq<char>) -> Seq<char> {
    "Jetstream - Transaction received - Signature: "@ + signature_text
}

/// The sink line for a transaction received on the raw stream.
pub open spec fn transaction_line_spec(signature: Seq<u8>) -> Seq<char> {
    signature_line_spec(base58_of(signature))
}

/// The line the sink emits for a transaction whose signature reads `signature_text`.
pub fn signature_line(signature_text: &str) -> (r: String)
    ensures
        r@ == signature_line_spec(signature_text@),
{
    let mut line = String::from_str("Jetstream - Transaction received - Signature: ");
    line.append(signature_text);
    line
}

/// The line the sink emits for a transaction with this signature.
pub fn transaction_line(signature: &Vec<u8>) -> (r: String)
    ensures
        r@ == transaction_line_spec(signature@),
{
    let sig = encode_base58(signature.as_slice());
    signature_line(sig.as_str())
}

/// The kind of an instruction on the parsed stream.
#[derive(Clone, Copy, Debug, PartialEq, Eq)]
pub enum ParsedInstructionKind {
    Initialize,
    SetParams,
    Create,
    Buy,
    Sell,
    Withdraw,
}

pub open spec fn kind_name(k: ParsedInstructionKind) -> Seq<char> {
    match k {
        ParsedInstructionKind::Initialize => "initialize"@,
        ParsedInstructionKind::SetParams => "set_params"@,
        ParsedInstructionKind::Create => "create"@,
        ParsedInstructionKind::Buy => "buy"@,
        ParsedInstructionKind::Sell => "sell"@,
        ParsedInstructionKind::Withdraw => "withdraw"@,
    }
}

impl ParsedInstructionKind {
    /// The kind's name as it appears in a line.
    pub fn name(&self) -> (r: &'static str)
        ensures
            r@ == kind_name(*self),
    {
        match self {
            ParsedInstructionKind::Initialize => "initialize",
            ParsedInstructionKind::SetParams => "set_params",
            ParsedInstructionKind::Create => "create",
            ParsedInstructionKind::Buy => "buy",
            ParsedInstructionKind::Sell => "sell",
            ParsedInstructionKind::Withdraw => "withdraw",
        }
    }
}

/// The names of the instructions whose kind is known, in their order.
pub open spec fn known_names(kinds: Seq<Option<ParsedInstructionKind>>) -> Seq<Seq<char>>
    decreases kinds.len(),
{
    if kinds.len() == 0 {
        Seq::empty()
    } else {
        let before = known_names(kinds.drop_last());
        match kinds.last() {
            Some(k) => before.push(kind_name(k)),
            None => before,
        }
    }
}

/// The names joined with `", "` between them.
pub open spec fn joined(names: Seq<Seq<char>>) -> Seq<char>
    decreases names.len(),
{
    if names.len() == 0 {
        Seq::empty()
    } else if names.len() == 1 {
        names[0]
    } else {
        joined(names.drop_last()) + ", "@ + names.last()
    }
}

/// The sink line for a transaction on the parsed stream, given the base58 text of its
/// signature: the instruction summary only when the transaction has instructions.
pub open spec fn parsed_text_spec(signature_text: Seq<char>, kinds: Seq<Option<ParsedInstructionKind>>) -> Seq<
    char,
> {
    if kinds.len() == 0 {
        "Jetstream Parsed - Transaction received - Signature: "@ + signature_text
    } else {
        "Jetstream Parsed - Transaction received - Signature: "@ + signature_text + ", Instructions: "@
            + joined(known_names(kinds))
    }
}

/// The sink line for a transaction on the parsed stream: nothing without a signature.
pub open spec fn parsed_line_spec(signature: Seq<u8>, kinds: Seq<Option<ParsedInstructionKind>>) -> Option<
    Seq<char>,
> {
    if signature.len() == 0 {
        None
    } else {
        Some(parsed_text_spec(base58_of(signature), kinds))
    }
}

/// The names of the known kinds joined with `", "`.
fn join_known(kinds: &Vec<Option<ParsedInstructionKind>>) -> (r: String)
    ensures
        r@ == joined(known_names(kinds@)),
{
    let mut out = String::new();
    let mut count: usize = 0;
    let mut i: usize = 0;
    while i < kinds.len()
        invariant
            0 <= i <= kinds@.len(),
            count <= i,
            count == known_names(kinds@.take(i as int)).len(),
            out@ == joined(known_names(kinds@.take(i as int))),
        decreases kinds@.len() - i,
    {
        let ghost before = known_names(kinds@.take(i as int));
        assert(kinds@.take(i + 1).drop_last() =~= kinds@.take(i as int));
        match kinds[i] {
            Some(k) => {
                if count > 0 {
                    out.append(", ");
                }
                out.append(k.name());
                assert(known_names(kinds@.take(i + 1)) == before.push(kind_name(k)));
                assert(before.push(kind_name(k)).drop_last() =~= before);
                assert(out@ =~= joined(before.push(kind_name(k))));
                count = count + 1;
            },
            None => {},
        }
        i = i + 1;
    }
    assert(kinds@.take(i as int) =~= kinds@);
    out
}

/// The line the sink emits for a transaction of the parsed stream whose signature
/// reads `signature_text`.
pub fn parsed_text_line(signature_text: &str, kinds: &Vec<Option<ParsedInstructionKind>>) -> (r: String)
    ensures
        r@ == parsed_text_spec(signature_text@, kinds@),
{
    let mut line = String::from_str("Jetstream Parsed - Transaction received - Signature: ");
    line.append(signature_text);
    if kinds.len() > 0 {
        line.append(", Instructions: ");
        let names = join_known(kinds);
        line.append(names.as_str());
    }
    line
}

/// The line the sink emits for a transaction of the parsed stream, if any.
pub fn parsed_line(signature: &Vec<u8>, kinds: &Vec<Option<ParsedInstructionKind>>) -> (r: Option<String>)
    ensures
        match r {
            Some(s) => parsed_line_spec(signature@, kinds@) == Some(s@),
            None => parsed_line_spec(signature@, kinds@) is None,
        },
{
    if signature.len() == 0 {
        return None;
    }
    let sig = encode_base58(signature.as_slice());
    Some(parsed_text_line(sig.as_str(), kinds))
}

} // verus!
