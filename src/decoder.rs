use vstd::prelude::*;
use vstd::slice::slice_subrange;
use vstd::utf8::{decode_utf8, encode_utf8, encode_utf8_decode_utf8, encode_utf8_valid_utf8, valid_utf8};

verus! {

/// Tag that opens a `Create` instruction.
pub const CREATE_IX_DISCM: [u8; 8] = [24, 30, 200, 40, 5, 28, 7, 119];

/// Tag that opens a `Buy` instruction.
pub const BUY_IX_DISCM: [u8; 8] = [102, 6, 61, 18, 1, 218, 235, 234];

/// Tag that opens a `Sell` instruction.
pub const SELL_IX_DISCM: [u8; 8] = [51, 230, 133, 164, 1, 127, 131, 173];

/// Bytes of the program account `6EF8rrecthR5Dkzon8Nwu78hRvfCKubJ14M5uBEwF6P`.
pub const PUMPFUN_PROGRAM_ID_BYTES: [u8; 32] = [
    1, 86, 224, 246, 147, 102, 90, 207, 68, 219, 21, 104, 191, 23, 91, 170,
    81, 137, 203, 151, 245, 210, 255, 59, 101, 93, 43, 182, 253, 109, 24, 176,
];

pub open spec fn create_tag() -> Seq<u8> {
    seq![24u8, 30u8, 200u8, 40u8, 5u8, 28u8, 7u8, 119u8]
}

pub open spec fn buy_tag() -> Seq<u8> {
    seq![102u8, 6u8, 61u8, 18u8, 1u8, 218u8, 235u8, 234u8]
}

pub open spec fn sell_tag() -> Seq<u8> {
    seq![51u8, 230u8, 133u8, 164u8, 1u8, 127u8, 131u8, 173u8]
}

pub open spec fn program_id() -> Seq<u8> {
    seq![
        1u8, 86u8, 224u8, 246u8, 147u8, 102u8, 90u8, 207u8, 68u8, 219u8, 21u8, 104u8,
        191u8, 23u8, 91u8, 170u8, 81u8, 137u8, 203u8, 151u8, 245u8, 210u8, 255u8, 59u8,
        101u8, 93u8, 43u8, 182u8, 253u8, 109u8, 24u8, 176u8,
    ]
}

/// A 32-byte account address.
#[derive(Clone, Copy, Debug, PartialEq, Eq)]
pub struct Pubkey(pub [u8; 32]);

impl View for Pubkey {
    type V = Seq<u8>;

    open spec fn view(&self) -> Seq<u8> {
        self.0@
    }
}

impl Pubkey {
    pub fn new_from_array(bytes: [u8; 32]) -> (r: Pubkey)
        ensures
            r@ == bytes@,
    {
        Pubkey(bytes)
    }

    /// The address formed by the first 32 bytes of `b`.
    pub fn from_key_bytes(b: &[u8]) -> (r: Pubkey)
        requires
            b@.len() >= 32,
        ensures
            r@ == b@.subrange(0, 32),
    {
        let mut a: [u8; 32] = [0u8; 32];
        let mut i: usize = 0;
        while i < 32
            invariant
                0 <= i <= 32,
                b@.len() >= 32,
                a@.len() == 32,
                forall|j: int| 0 <= j < i ==> a@[j] == b@[j],
            decreases 32 - i,
        {
            a[i] = b[i];
            i = i + 1;
        }
        assert(a@ =~= b@.subrange(0, 32));
        Pubkey(a)
    }

    /// The program account whose instructions this decoder reads.
    pub fn program_id() -> (r: Pubkey)
        ensures
            r@ == program_id(),
    {
        let a = PUMPFUN_PROGRAM_ID_BYTES;
        assert(a@ =~= program_id());
        Pubkey(a)
    }

    pub fn same_as(&self, other: &Pubkey) -> (r: bool)
        ensures
            r == (self@ == other@),
    {
        let mut i: usize = 0;
        while i < 32
            invariant
                0 <= i <= 32,
                self@.len() == 32,
                other@.len() == 32,
                forall|j: int| 0 <= j < i ==> self@[j] == other@[j],
            decreases 32 - i,
        {
            if self.0[i] != other.0[i] {
                return false;
            }
            i = i + 1;
        }
        assert(self@ =~= other@);
        true
    }
}

/// The addresses of a list of accounts.
pub open spec fn keys_of(accounts: Seq<Pubkey>) -> Seq<Seq<u8>> {
    accounts.map_values(|k: Pubkey| k@)
}

/// Arguments of a `Create` instruction.
#[derive(Clone, Debug, PartialEq)]
pub struct CreateIxArgs {
    pub name: String,
    pub symbol: String,
    pub uri: String,
}

/// Arguments of a `Sell` instruction.
#[derive(Clone, Copy, Debug, PartialEq, Eq)]
pub struct SellIxArgs {
    pub amount: u64,
    pub min_sol_output: u64,
}

/// A `Sell` instruction's arguments, as an instruction payload.
#[derive(Clone, Copy, Debug, PartialEq, Eq)]
pub struct SellIxData(pub SellIxArgs);

impl From<SellIxArgs> for SellIxData {
    fn from(args: SellIxArgs) -> Self {
        SellIxData(args)
    }
}

impl vstd::std_specs::convert::FromSpecImpl<SellIxArgs> for SellIxData {
    open spec fn obeys_from_spec() -> bool {
        true
    }

    open spec fn from_spec(v: SellIxArgs) -> Self {
        SellIxData(v)
    }
}

/// Arguments of a `Buy` instruction.
#[derive(Clone, Copy, Debug, PartialEq, Eq)]
pub struct BuyIxArgs {
    pub amount: u64,
    pub max_sol_cost: u64,
}

/// A `Buy` instruction's arguments, as an instruction payload.
#[derive(Clone, Copy, Debug, PartialEq, Eq)]
pub struct BuyIxData(pub BuyIxArgs);

impl From<BuyIxArgs> for BuyIxData {
    fn from(args: BuyIxArgs) -> Self {
        BuyIxData(args)
    }
}

impl vstd::std_specs::convert::FromSpecImpl<BuyIxArgs> for BuyIxData {
    open spec fn obeys_from_spec() -> bool {
        true
    }

    open spec fn from_spec(v: BuyIxArgs) -> Self {
        BuyIxData(v)
    }
}

/// A decoded instruction of the program.
#[derive(Clone, Debug, PartialEq)]
pub enum PumpProgramIx {
    Create(CreateIxArgs),
    Buy(BuyIxArgs),
    Sell(SellIxArgs),
}

/// What a decoded instruction holds.
pub enum IxModel {
    Create { name: Seq<char>, symbol: Seq<char>, uri: Seq<char> },
    Buy { amount: u64, max_sol_cost: u64 },
    Sell { amount: u64, min_sol_output: u64 },
}

impl View for PumpProgramIx {
    type V = IxModel;

    open spec fn view(&self) -> IxModel {
        match self {
            PumpProgramIx::Create(a) => IxModel::Create { name: a.name@, symbol: a.symbol@, uri: a.uri@ },
            PumpProgramIx::Buy(a) => IxModel::Buy { amount: a.amount, max_sol_cost: a.max_sol_cost },
            PumpProgramIx::Sell(a) => IxModel::Sell { amount: a.amount, min_sol_output: a.min_sol_output },
        }
    }
}

/// Why a buffer did not decode.
#[derive(Clone, Copy, Debug, PartialEq, Eq)]
pub enum DecodeError {
    /// The program account is not among the transaction's accounts.
    NotThisProgram,
    /// Fewer than eight bytes: no tag to read.
    TruncatedBuffer,
    /// The leading eight bytes are no known tag.
    UnknownInstruction([u8; 8]),
    /// The bytes after a known tag do not hold its fields.
    MalformedPayload,
}

/// What a decode failure says.
pub enum DecodeFailure {
    NotThisProgram,
    TruncatedBuffer,
    UnknownInstruction(Seq<u8>),
    MalformedPayload,
}

impl View for DecodeError {
    type V = DecodeFailure;

    open spec fn view(&self) -> DecodeFailure {
        match self {
            DecodeError::NotThisProgram => DecodeFailure::NotThisProgram,
            DecodeError::TruncatedBuffer => DecodeFailure::TruncatedBuffer,
            DecodeError::UnknownInstruction(t) => DecodeFailure::UnknownInstruction(t@),
            DecodeError::MalformedPayload => DecodeFailure::MalformedPayload,
        }
    }
}

pub open spec fn result_view(r: Result<PumpProgramIx, DecodeError>) -> Result<IxModel, DecodeFailure> {
    match r {
        Ok(ix) => Ok(ix@),
        Err(e) => Err(e@),
    }
}

/// The little-endian value of the first four bytes.
pub open spec fn le_u32(b: Seq<u8>) -> int {
    b[0] as int + b[1] as int * 0x100 + b[2] as int * 0x1_0000 + b[3] as int * 0x100_0000
}

/// The little-endian value of the first eight bytes.
pub open spec fn le_u64(b: Seq<u8>) -> int {
    le_u32(b) + le_u32(b.skip(4)) * 0x1_0000_0000
}

/// An unsigned 64-bit field at the start of `b`.
pub open spec fn u64_field(b: Seq<u8>) -> Option<u64> {
    if b.len() >= 8 {
        Some(le_u64(b) as u64)
    } else {
        None
    }
}

/// A string field at the start of `b`: a little-endian 32-bit byte count, then that
/// many bytes of UTF-8. Gives the characters and the number of bytes the field takes.
pub open spec fn string_field(b: Seq<u8>) -> Option<(Seq<char>, int)> {
    if b.len() >= 4 && 4 + le_u32(b) <= b.len() && valid_utf8(b.subrange(4, 4 + le_u32(b))) {
        Some((decode_utf8(b.subrange(4, 4 + le_u32(b))), 4 + le_u32(b)))
    } else {
        None
    }
}

/// Relies on borsh's `BorshDeserialize for u64`: eight bytes read little-endian.
#[verifier::external_body]
fn read_u64(buf: &[u8]) -> (r: Option<u64>)
    ensures
        r == u64_field(buf@),
{
    let mut rest: &[u8] = buf;
    <u64 as borsh::BorshDeserialize>::deserialize(&mut rest).ok()
}

/// Relies on borsh's `BorshDeserialize for String`: a `u32` byte count read
/// little-endian, then that many bytes, which must be UTF-8. Gives the string and the
/// number of bytes left after it.
#[verifier::external_body]
fn read_string(buf: &[u8]) -> (r: Option<(String, usize)>)
    ensures
        match r {
            Some((s, left)) => string_field(buf@) == Some((s@, buf@.len() - left)),
            None => string_field(buf@) is None,
        },
{
    let mut rest: &[u8] = buf;
    match <String as borsh::BorshDeserialize>::deserialize(&mut rest) {
        Ok(s) => Some((s, rest.len())),
        Err(_) => None,
    }
}

/// The fields of a `Create` instruction: three string fields in a row.
pub open spec fn create_fields(b: Seq<u8>) -> Option<IxModel> {
    match string_field(b) {
        None => None,
        Some((name, n1)) => match string_field(b.skip(n1)) {
            None => None,
            Some((symbol, n2)) => match string_field(b.skip(n1 + n2)) {
                None => None,
                Some((uri, _n3)) => Some(IxModel::Create { name, symbol, uri }),
            },
        },
    }
}

/// The fields of a `Buy` instruction: amount, then the largest cost.
pub open spec fn buy_fields(b: Seq<u8>) -> Option<IxModel> {
    match (u64_field(b), u64_field(b.skip(8))) {
        (Some(amount), Some(max_sol_cost)) if b.len() >= 16 => Some(IxModel::Buy { amount, max_sol_cost }),
        _ => None,
    }
}

/// The fields of a `Sell` instruction: amount, then the smallest output.
pub open spec fn sell_fields(b: Seq<u8>) -> Option<IxModel> {
    match (u64_field(b), u64_field(b.skip(8))) {
        (Some(amount), Some(min_sol_output)) if b.len() >= 16 => Some(IxModel::Sell { amount, min_sol_output }),
        _ => None,
    }
}

pub open spec fn fields_or_malformed(f: Option<IxModel>) -> Result<IxModel, DecodeFailure> {
    match f {
        Some(m) => Ok(m),
        None => Err(DecodeFailure::MalformedPayload),
    }
}

/// What decoding `buf` gives, with `accounts` the addresses of the transaction's accounts.
pub open spec fn decode_spec(accounts: Seq<Seq<u8>>, buf: Seq<u8>) -> Result<IxModel, DecodeFailure> {
    if !accounts.contains(program_id()) {
        Err(DecodeFailure::NotThisProgram)
    } else if buf.len() < 8 {
        Err(DecodeFailure::TruncatedBuffer)
    } else if buf.take(8) == create_tag() {
        fields_or_malformed(create_fields(buf.skip(8)))
    } else if buf.take(8) == buy_tag() {
        fields_or_malformed(buy_fields(buf.skip(8)))
    } else if buf.take(8) == sell_tag() {
        fields_or_malformed(sell_fields(buf.skip(8)))
    } else {
        Err(DecodeFailure::UnknownInstruction(buf.take(8)))
    }
}

/// Whether the program account is among `accounts`.
pub fn has_program_id(accounts: &Vec<Pubkey>) -> (r: bool)
    ensures
        r == keys_of(accounts@).contains(program_id()),
{
    let id = Pubkey::program_id();
    let mut i: usize = 0;
    while i < accounts.len()
        invariant
            0 <= i <= accounts@.len(),
            id@ == program_id(),
            forall|j: int| 0 <= j < i ==> accounts@[j]@ != program_id(),
        decreases accounts@.len() - i,
    {
        if accounts[i].same_as(&id) {
            assert(keys_of(accounts@)[i as int] == program_id());
            return true;
        }
        i = i + 1;
    }
    assert forall|j: int| 0 <= j < keys_of(accounts@).len() implies keys_of(accounts@)[j] != program_id() by {
        assert(keys_of(accounts@)[j] == accounts@[j]@);
    }
    false
}

fn parse_create(b: &[u8]) -> (r: Option<CreateIxArgs>)
    ensures
        match r {
            Some(a) => create_fields(b@) == Some(PumpProgramIx::Create(a)@),
            None => create_fields(b@) is None,
        },
{
    let (name, left1) = match read_string(b) {
        Some(p) => p,
        None => return None,
    };
    let rest1 = slice_subrange(b, b.len() - left1, b.len());
    assert(rest1@ == b@.skip(b@.len() - left1));
    let (symbol, left2) = match read_string(rest1) {
        Some(p) => p,
        None => return None,
    };
    let rest2 = slice_subrange(rest1, rest1.len() - left2, rest1.len());
    assert(rest2@ =~= b@.skip((b@.len() - left1) + (rest1@.len() - left2)));
    let (uri, _left3) = match read_string(rest2) {
        Some(p) => p,
        None => return None,
    };
    Some(CreateIxArgs { name, symbol, uri })
}

/// Two unsigned 64-bit fields in a row.
fn parse_pair(b: &[u8]) -> (r: Option<(u64, u64)>)
    ensures
        match r {
            Some((x, y)) => b@.len() >= 16 && u64_field(b@) == Some(x) && u64_field(b@.skip(8)) == Some(y),
            None => b@.len() < 16,
        },
{
    if b.len() < 16 {
        return None;
    }
    let x = match read_u64(b) {
        Some(v) => v,
        None => return None,
    };
    let y = match read_u64(slice_subrange(b, 8, b.len())) {
        Some(v) => v,
        None => return None,
    };
    Some((x, y))
}

impl PumpProgramIx {
    /// Decodes one instruction buffer of the program, with `accounts` the accounts of
    /// the transaction it came in.
    pub fn deserialize_pumpfun(accounts: Vec<Pubkey>, buf: &[u8]) -> (r: Result<Self, DecodeError>)
        ensures
            result_view(r) == decode_spec(keys_of(accounts@), buf@),
    {
        if !has_program_id(&accounts) {
            return Err(DecodeError::NotThisProgram);
        }
        if buf.len() < 8 {
            return Err(DecodeError::TruncatedBuffer);
        }
        let tag: [u8; 8] = [buf[0], buf[1], buf[2], buf[3], buf[4], buf[5], buf[6], buf[7]];
        assert(tag@ =~= buf@.take(8));
        let rest = slice_subrange(buf, 8, buf.len());
        assert(rest@ =~= buf@.skip(8));
        if tags_equal(&tag, &CREATE_IX_DISCM) {
            match parse_create(rest) {
                Some(a) => Ok(PumpProgramIx::Create(a)),
                None => Err(DecodeError::MalformedPayload),
            }
        } else if tags_equal(&tag, &BUY_IX_DISCM) {
            match parse_pair(rest) {
                Some((amount, max_sol_cost)) => Ok(PumpProgramIx::Buy(BuyIxArgs { amount, max_sol_cost })),
                None => Err(DecodeError::MalformedPayload),
            }
        } else if tags_equal(&tag, &SELL_IX_DISCM) {
            match parse_pair(rest) {
                Some((amount, min_sol_output)) => Ok(PumpProgramIx::Sell(SellIxArgs { amount, min_sol_output })),
                None => Err(DecodeError::MalformedPayload),
            }
        } else {
            Err(DecodeError::UnknownInstruction(tag))
        }
    }
}

fn tags_equal(a: &[u8; 8], b: &[u8; 8]) -> (r: bool)
    ensures
        r == (a@ == b@),
{
    let mut i: usize = 0;
    while i < 8
        invariant
            0 <= i <= 8,
            a@.len() == 8,
            b@.len() == 8,
            forall|j: int| 0 <= j < i ==> a@[j] == b@[j],
        decreases 8 - i,
    {
        if a[i] != b[i] {
            return false;
        }
        i = i + 1;
    }
    assert(a@ =~= b@);
    true
}

/// The four bytes of `n` in little-endian order.
pub open spec fn u32_bytes(n: nat) -> Seq<u8> {
    seq![
        (n % 0x100) as u8,
        ((n / 0x100) % 0x100) as u8,
        ((n / 0x1_0000) % 0x100) as u8,
        (n / 0x100_0000) as u8,
    ]
}

/// The encoding of a string field: its UTF-8 byte count, then its UTF-8 bytes.
pub open spec fn string_bytes(s: Seq<char>) -> Seq<u8> {
    u32_bytes(encode_utf8(s).len()) + encode_utf8(s)
}

proof fn lemma_le_u32_of_bytes(n: nat, rest: Seq<u8>)
    requires
        n < 0x1_0000_0000,
    ensures
        le_u32(u32_bytes(n) + rest) == n,
{
    let b = u32_bytes(n) + rest;
    let a = n / 0x100;
    let c = a / 0x100;
    assert(n / 0x1_0000 == c);
    assert(n / 0x100_0000 == c / 0x100);
    assert(b[0] as int == n % 0x100);
    assert(b[1] as int == a % 0x100);
    assert(b[2] as int == c % 0x100);
    assert(b[3] as int == c / 0x100);
}

proof fn lemma_string_field_of(s: Seq<char>, rest: Seq<u8>)
    requires
        encode_utf8(s).len() < 0x1_0000_0000,
    ensures
        string_field(string_bytes(s) + rest) == Some((s, string_bytes(s).len() as int)),
        (string_bytes(s) + rest).skip(string_bytes(s).len() as int) == rest,
{
    let e = encode_utf8(s);
    let b = string_bytes(s) + rest;
    assert(b =~= u32_bytes(e.len()) + (e + rest));
    lemma_le_u32_of_bytes(e.len(), e + rest);
    assert(b.subrange(4, 4 + e.len() as int) =~= e);
    encode_utf8_valid_utf8(s);
    encode_utf8_decode_utf8(s);
    assert(b.skip(string_bytes(s).len() as int) =~= rest);
}

/// A buffer made of the `Create` tag and three string fields, with anything after
/// them, decodes to `Create` with exactly those strings, when the program account is
/// among the accounts.
pub proof fn lemma_create_exact(
    accounts: Seq<Seq<u8>>,
    name: Seq<char>,
    symbol: Seq<char>,
    uri: Seq<char>,
    tail: Seq<u8>,
)
    requires
        accounts.contains(program_id()),
        encode_utf8(name).len() < 0x1_0000_0000,
        encode_utf8(symbol).len() < 0x1_0000_0000,
        encode_utf8(uri).len() < 0x1_0000_0000,
    ensures
        decode_spec(accounts, create_tag() + string_bytes(name) + string_bytes(symbol) + string_bytes(uri) + tail)
            == Ok::<IxModel, DecodeFailure>(IxModel::Create { name, symbol, uri }),
{
    let fields = string_bytes(name) + string_bytes(symbol) + string_bytes(uri) + tail;
    let buf = create_tag() + string_bytes(name) + string_bytes(symbol) + string_bytes(uri) + tail;
    assert(buf =~= create_tag() + fields);
    assert(buf.take(8) =~= create_tag());
    assert(buf.skip(8) =~= fields);
    let r1 = string_bytes(symbol) + string_bytes(uri) + tail;
    let r2 = string_bytes(uri) + tail;
    assert(fields =~= string_bytes(name) + r1);
    assert(r1 =~= string_bytes(symbol) + r2);
    lemma_string_field_of(name, r1);
    lemma_string_field_of(symbol, r2);
    lemma_string_field_of(uri, tail);
    let n1 = string_bytes(name).len() as int;
    let n2 = string_bytes(symbol).len() as int;
    assert(fields.skip(n1) == r1);
    assert(fields.skip(n1 + n2) =~= r1.skip(n2));
}

/// With the program account among the accounts, a buffer whose first eight bytes are
/// none of the known tags decodes to `UnknownInstruction` with those bytes.
pub proof fn lemma_unknown_tag(accounts: Seq<Seq<u8>>, buf: Seq<u8>)
    requires
        accounts.contains(program_id()),
        buf.len() >= 8,
        buf.take(8) != create_tag(),
        buf.take(8) != buy_tag(),
        buf.take(8) != sell_tag(),
    ensures
        decode_spec(accounts, buf) == Err::<IxModel, DecodeFailure>(DecodeFailure::UnknownInstruction(buf.take(8))),
{
}

/// Without the program account among the accounts, every buffer decodes to
/// `NotThisProgram`, however well formed.
pub proof fn lemma_program_gate(accounts: Seq<Seq<u8>>, buf: Seq<u8>)
    requires
        !accounts.contains(program_id()),
    ensures
        decode_spec(accounts, buf) == Err::<IxModel, DecodeFailure>(DecodeFailure::NotThisProgram),
{
}

/// Every buffer decodes to exactly one outcome, and a decoded variant is always the
/// one that the buffer's tag names: no buffer is read as another variant.
pub proof fn lemma_decode_total(accounts: Seq<Seq<u8>>, buf: Seq<u8>)
    ensures
        decode_spec(accounts, buf) matches Ok(IxModel::Create { .. }) ==> buf.len() >= 8 && buf.take(8) == create_tag(),
        decode_spec(accounts, buf) matches Ok(IxModel::Buy { .. }) ==> buf.len() >= 8 && buf.take(8) == buy_tag(),
        decode_spec(accounts, buf) matches Ok(IxModel::Sell { .. }) ==> buf.len() >= 8 && buf.take(8) == sell_tag(),
        decode_spec(accounts, buf) is Err ==> (decode_spec(accounts, buf)->Err_0 == DecodeFailure::NotThisProgram
            <==> !accounts.contains(program_id())),
        decode_spec(accounts, buf) is Err ==> (decode_spec(accounts, buf)->Err_0 == DecodeFailure::TruncatedBuffer
            <==> accounts.contains(program_id()) && buf.len() < 8),
{
}

/// Decoding is a function of the accounts and the buffer: equal inputs give equal
/// outcomes.
pub proof fn lemma_decode_deterministic(a1: Seq<Seq<u8>>, b1: Seq<u8>, a2: Seq<Seq<u8>>, b2: Seq<u8>)
    requires
        a1 == a2,
        b1 == b2,
    ensures
        decode_spec(a1, b1) == decode_spec(a2, b2),
{
}

} // verus!
