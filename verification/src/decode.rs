//! Decoding of the ledger node's transaction-history response into typed
//! [`HistoryEntry`](crate::history::HistoryEntry) values.
//!
//! The response is untrusted external input. The text is parsed once,
//! behind a trusted wrapper whose outcome is the named parse result
//! [`json_of`]; everything after that parse — walking the tree, selecting
//! the payload shape by `txId`, reading each field — is verified against
//! that name. Every missing or ill-typed field surfaces as
//! [`LedgerError::MalformedLedgerResponse`] instead of a panic, and a
//! malformed body is never mistaken for an empty history. The entry
//! envelope is a JSON array of objects `{ txId, tx, success?, createdAt,
//! ... }`; the `tx` payload is a polymorphic object whose shape is selected
//! by `txId`.

use vstd::prelude::*;
use crate::errors::LedgerError;
use crate::history::{EntryKind, HistoryEntry};
use crate::types::{str_eq, Address};
use vstd::array::ArrayAdditionalExecFns;
use vstd::string::StrSliceExecFns;

verus! {

#[verifier::external_type_specification]
#[verifier::external_body]
pub struct ExValue(serde_json::Value);

/// The library's model of a JSON document: what the parse of the ledger's
/// response text yields. Numbers the ledger's integer fields can carry are
/// kept exactly; any other number keeps only its kind, which the decoder
/// rejects wherever an integer is required.
#[derive(Debug)]
pub enum JsonVal {
    Null,
    Bool(bool),
    UInt(u64),
    NonU64Number,
    Str(String),
    Arr(Vec<JsonVal>),
    Obj(Vec<(String, JsonVal)>),
}

/// The parse result of a JSON text: `None` for text that is not well-formed
/// JSON, the modeled document otherwise. The outcome depends on the text
/// alone.
pub uninterp spec fn json_of(s: Seq<char>) -> Option<JsonVal>;

/// Relies on serde_json::from_str: parses JSON text into a value tree, or
/// fails on text that is not well-formed JSON; the tree is handed back
/// converted node for node into the library's model.
#[verifier::external_body]
fn json_parse(text: &str) -> (r: Option<JsonVal>)
    ensures
        r == json_of(text@),
{
    serde_json::from_str::<serde_json::Value>(text).ok().map(model_of_value)
}

/// Relies on serde_json::Value's variant structure and on Number::as_u64:
/// each JSON node becomes the corresponding model node, one variant per
/// arm, fields moved as they stand; a number that `as_u64` cannot represent
/// is kept only as its kind.
#[verifier::external_body]
fn model_of_value(v: serde_json::Value) -> JsonVal {
    match v {
        serde_json::Value::Null => JsonVal::Null,
        serde_json::Value::Bool(b) => JsonVal::Bool(b),
        serde_json::Value::Number(n) => match n.as_u64() {
            Some(u) => JsonVal::UInt(u),
            None => JsonVal::NonU64Number,
        },
        serde_json::Value::String(s) => JsonVal::Str(s),
        serde_json::Value::Array(a) => JsonVal::Arr(a.into_iter().map(model_of_value).collect()),
        serde_json::Value::Object(m) => JsonVal::Obj(
            m.into_iter().map(|(k, f)| (k, model_of_value(f))).collect(),
        ),
    }
}

/// The value under `key` among an object's fields: the first pair carrying
/// the key (a parsed JSON object holds each key once).
pub open spec fn obj_field(fields: Seq<(String, JsonVal)>, key: Seq<char>) -> Option<JsonVal>
    decreases fields.len(),
{
    if fields.len() == 0 {
        None
    } else if fields.first().0@ == key {
        Some(fields.first().1)
    } else {
        obj_field(fields.drop_first(), key)
    }
}

/// The value under `key` when `v` is an object holding that key, `None`
/// otherwise.
pub open spec fn spec_get(v: JsonVal, key: Seq<char>) -> Option<JsonVal> {
    match v {
        JsonVal::Obj(fields) => obj_field(fields@, key),
        _ => None,
    }
}

impl JsonVal {
    /// Looks up a field of a JSON object by key.
    pub fn get<'a>(&'a self, key: &str) -> (r: Option<&'a JsonVal>)
        ensures
            r is Some <==> spec_get(*self, key@) is Some,
            r matches Some(f) ==> spec_get(*self, key@) == Some(*f),
    {
        match self {
            JsonVal::Obj(fields) => {
                let n = fields.len();
                let mut i: usize = 0;
                proof {
                    assert(fields@.skip(0) =~= fields@);
                }
                while i < n
                    invariant
                        0 <= i <= n,
                        n == fields@.len(),
                        *self matches JsonVal::Obj(fs) && fs@ == fields@,
                        obj_field(fields@, key@) == obj_field(fields@.skip(i as int), key@),
                    decreases n - i,
                {
                    proof {
                        assert(fields@.skip(i as int).first() == fields@[i as int]);
                        assert(fields@.skip(i as int).drop_first() =~= fields@.skip(i as int + 1));
                    }
                    if str_eq(fields[i].0.as_str(), key) {
                        return Some(&fields[i].1);
                    }
                    i = i + 1;
                }
                proof {
                    assert(fields@.skip(n as int).len() == 0);
                }
                None
            },
            _ => None,
        }
    }
}

/// A hexadecimal digit, upper or lower case.
pub open spec fn is_hex_digit(c: char) -> bool {
    ('0' as u32 <= c as u32 && c as u32 <= '9' as u32) || ('a' as u32 <= c as u32 && c as u32
        <= 'f' as u32) || ('A' as u32 <= c as u32 && c as u32 <= 'F' as u32)
}

/// The numeric value of a hexadecimal digit.
pub open spec fn hex_digit_value(c: char) -> u8 {
    if '0' as u32 <= c as u32 && c as u32 <= '9' as u32 {
        (c as u32 - '0' as u32) as u8
    } else if 'a' as u32 <= c as u32 && c as u32 <= 'f' as u32 {
        (c as u32 - 'a' as u32 + 10) as u8
    } else {
        (c as u32 - 'A' as u32 + 10) as u8
    }
}

/// The bytes spelled by a sequence of hexadecimal digit pairs.
pub open spec fn hex_bytes(s: Seq<char>) -> Seq<u8> {
    Seq::new(
        (s.len() / 2) as nat,
        |i: int| (16 * hex_digit_value(s[2 * i]) + hex_digit_value(s[2 * i + 1])) as u8,
    )
}

/// A string of hexadecimal digits that spells a whole number of bytes.
pub open spec fn is_hex_string(s: Seq<char>) -> bool {
    s.len() % 2 == 0 && (forall|i: int| 0 <= i < s.len() ==> is_hex_digit(s[i]))
}

/// Relies on hex::decode: each pair of hexadecimal digits becomes one byte;
/// an input of odd length, or holding any character that is not a
/// hexadecimal digit, is rejected.
#[verifier::external_body]
fn hex_decode(s: &str) -> (r: Option<Vec<u8>>)
    ensures
        r is Some <==> is_hex_string(s@),
        r matches Some(v) ==> v@ == hex_bytes(s@),
{
    hex::decode(s).ok()
}

/// The address spelled by a string of exactly 40 hexadecimal digits, with an
/// optional `0x` prefix.
pub open spec fn spec_parse_address(s: Seq<char>) -> Option<Seq<u8>> {
    let t = if s.len() >= 2 && s[0] == '0' && s[1] == 'x' {
        s.skip(2)
    } else {
        s
    };
    if t.len() == 40 && is_hex_string(t) {
        Some(hex_bytes(t))
    } else {
        None
    }
}

/// Parses a ledger address from its textual form: 40 hexadecimal digits,
/// with or without a `0x` prefix.
pub fn parse_address(s: &str) -> (r: Option<Address>)
    ensures
        r is Some <==> spec_parse_address(s@) is Some,
        r matches Some(a) ==> spec_parse_address(s@) == Some(a@),
{
    let len = s.unicode_len();
    let stripped: &str = if len >= 2 && s.get_char(0) == '0' && s.get_char(1) == 'x' {
        s.substring_char(2, len)
    } else {
        s
    };
    proof {
        assert(stripped@ =~= (if s@.len() >= 2 && s@[0] == '0' && s@[1] == 'x' {
            s@.skip(2)
        } else {
            s@
        }));
    }
    if stripped.unicode_len() != 40 {
        return None;
    }
    let bytes = match hex_decode(stripped) {
        Some(b) => b,
        None => {
            return None;
        },
    };
    let mut out: [u8; 20] = [0; 20];
    let mut i: usize = 0;
    assert(bytes@.len() == 20);
    while i < 20
        invariant
            0 <= i <= 20,
            bytes@.len() == 20,
            forall|j: int| 0 <= j < i ==> out@[j] == bytes@[j],
        decreases 20 - i,
    {
        out.set(i, bytes[i]);
        i = i + 1;
    }
    proof {
        assert(out@ =~= bytes@);
    }
    Some(Address(out))
}

/// The entry kind selected by a raw entry's `txId` tag.
pub open spec fn spec_entry_kind(tx_id: Seq<char>) -> EntryKind {
    if tx_id == "TransferFrom"@ {
        EntryKind::TransferFrom
    } else if tx_id == "Transfer"@ {
        EntryKind::Transfer
    } else {
        EntryKind::Other
    }
}

/// Maps a raw entry's `txId` tag to the kind of ledger operation it denotes.
pub fn entry_kind_of(tx_id: &str) -> (k: EntryKind)
    ensures
        k == spec_entry_kind(tx_id@),
{
    if str_eq(tx_id, "TransferFrom") {
        EntryKind::TransferFrom
    } else if str_eq(tx_id, "Transfer") {
        EntryKind::Transfer
    } else {
        EntryKind::Other
    }
}

/// The all-zero address sequence, filling payload fields that an entry kind
/// does not carry.
pub open spec fn zero_addr_seq() -> Seq<u8> {
    Seq::new(20, |i: int| 0u8)
}

/// The all-zero address.
fn zero_address() -> (a: Address)
    ensures
        a@ == zero_addr_seq(),
{
    let a = Address([0; 20]);
    proof {
        assert(a@ =~= zero_addr_seq());
    }
    a
}

/// The raw entry's `txId` tag, when it is a string.
pub open spec fn spec_tx_id(item: JsonVal) -> Option<Seq<char>> {
    match spec_get(item, "txId"@) {
        Some(JsonVal::Str(s)) => Some(s@),
        _ => None,
    }
}

/// The raw entry's success flag: an absent or `null` field is a pending
/// transaction and counts as succeeded; a boolean is taken as it stands;
/// anything else is ill-typed.
pub open spec fn spec_success_field(item: JsonVal) -> Option<bool> {
    match spec_get(item, "success"@) {
        None => Some(true),
        Some(JsonVal::Null) => Some(true),
        Some(JsonVal::Bool(b)) => Some(b),
        Some(_) => None,
    }
}

/// A u64 field of a JSON object, when present with that type.
pub open spec fn spec_u64_field(item: JsonVal, key: Seq<char>) -> Option<u64> {
    match spec_get(item, key) {
        Some(JsonVal::UInt(n)) => Some(n),
        _ => None,
    }
}

/// An account-nonce field: a u64 field that fits the ledger's 32-bit nonces.
pub open spec fn spec_nonce_field(item: JsonVal, key: Seq<char>) -> Option<u32> {
    match spec_u64_field(item, key) {
        Some(n) => if n <= u32::MAX {
            Some(n as u32)
        } else {
            None
        },
        None => None,
    }
}

/// An address-valued field: a string field spelling a well-formed address.
pub open spec fn spec_address_field(item: JsonVal, key: Seq<char>) -> Option<Seq<u8>> {
    match spec_get(item, key) {
        Some(JsonVal::Str(s)) => spec_parse_address(s@),
        _ => None,
    }
}

/// A raw history item decodes without error: the envelope fields are
/// present and well-typed, and, for the two leg kinds, so is every payload
/// field the reconciler reads.
pub open spec fn spec_entry_well_formed(item: JsonVal) -> bool {
    &&& spec_tx_id(item) is Some
    &&& spec_success_field(item) is Some
    &&& spec_u64_field(item, "createdAt"@) is Some
    &&& (spec_entry_kind(spec_tx_id(item)->Some_0) == EntryKind::Other || {
        let tx = spec_get(item, "tx"@);
        &&& tx is Some
        &&& spec_address_field(tx->Some_0, "from"@) is Some
        &&& spec_address_field(tx->Some_0, "to"@) is Some
        &&& spec_u64_field(tx->Some_0, "amount"@) is Some
        &&& spec_nonce_field(tx->Some_0, "nonce"@) is Some
        &&& (spec_entry_kind(spec_tx_id(item)->Some_0) == EntryKind::TransferFrom
            ==> spec_nonce_field(tx->Some_0, "toNonce"@) is Some)
    })
}

/// `e` is the decode of the raw history item: the kind named by `txId`, the
/// envelope's success flag and timestamp, and — for the two leg kinds —
/// exactly the payload fields, with the unused ones zeroed.
pub open spec fn spec_entry_of(e: HistoryEntry, item: JsonVal) -> bool {
    &&& spec_tx_id(item) matches Some(id) && e.kind == spec_entry_kind(id)
    &&& spec_success_field(item) matches Some(b) && e.succeeded == b
    &&& spec_u64_field(item, "createdAt"@) matches Some(t) && e.created_at == t
    &&& if e.kind == EntryKind::Other {
        &&& e.from@ == zero_addr_seq()
        &&& e.to@ == zero_addr_seq()
        &&& e.amount == 0
        &&& e.nonce == 0
        &&& e.to_nonce == 0
    } else {
        spec_get(item, "tx"@) matches Some(tx) && {
            &&& spec_address_field(tx, "from"@) matches Some(a) && e.from@ == a
            &&& spec_address_field(tx, "to"@) matches Some(a) && e.to@ == a
            &&& spec_u64_field(tx, "amount"@) matches Some(am) && e.amount == am
            &&& spec_nonce_field(tx, "nonce"@) matches Some(nn) && e.nonce == nn
            &&& if e.kind == EntryKind::TransferFrom {
                spec_nonce_field(tx, "toNonce"@) matches Some(tn) && e.to_nonce == tn
            } else {
                e.to_nonce == 0
            }
        }
    }
}

/// Reads a u64 field of a JSON object.
fn read_u64_field(item: &JsonVal, key: &str) -> (r: Option<u64>)
    ensures
        r == spec_u64_field(*item, key@),
{
    match item.get(key) {
        Some(v) => match v {
            JsonVal::UInt(n) => Some(*n),
            _ => None,
        },
        None => None,
    }
}

/// Reads an account-nonce field of a JSON object.
fn read_nonce_field(item: &JsonVal, key: &str) -> (r: Option<u32>)
    ensures
        r == spec_nonce_field(*item, key@),
{
    match read_u64_field(item, key) {
        Some(n) => if n <= u32::MAX as u64 {
            Some(n as u32)
        } else {
            None
        },
        None => None,
    }
}

/// Reads an address-valued field of a JSON object.
fn read_address_field(item: &JsonVal, key: &str) -> (r: Option<Address>)
    ensures
        r is Some <==> spec_address_field(*item, key@) is Some,
        r matches Some(a) ==> spec_address_field(*item, key@) == Some(a@),
{
    match item.get(key) {
        Some(v) => match v {
            JsonVal::Str(s) => parse_address(s.as_str()),
            _ => None,
        },
        None => None,
    }
}

/// Decodes one raw history item. The outcome depends on the parsed item
/// alone: the decode succeeds exactly when the item is well formed, and a
/// missing or ill-typed required field is a malformed response, never a
/// panic. An entry whose `txId` names neither leg kind decodes as `Other`
/// without inspecting its payload; a failed transaction is kept, marked not
/// succeeded, so the reconciler can discard it.
pub fn decode_entry(item: &JsonVal) -> (r: Result<HistoryEntry, LedgerError>)
    ensures
        r is Ok <==> spec_entry_well_formed(*item),
        r matches Ok(e) ==> spec_entry_of(e, *item),
        r matches Err(e) ==> e is MalformedLedgerResponse,
{
    let tx_id = match item.get("txId") {
        Some(v) => match v {
            JsonVal::Str(s) => s,
            _ => {
                return Err(LedgerError::MalformedLedgerResponse);
            },
        },
        None => {
            return Err(LedgerError::MalformedLedgerResponse);
        },
    };
    let succeeded = match item.get("success") {
        Some(v) => match v {
            JsonVal::Null => true,
            JsonVal::Bool(b) => *b,
            _ => {
                return Err(LedgerError::MalformedLedgerResponse);
            },
        },
        None => true,
    };
    let created_at = match read_u64_field(item, "createdAt") {
        Some(t) => t,
        None => {
            return Err(LedgerError::MalformedLedgerResponse);
        },
    };
    let kind = entry_kind_of(tx_id.as_str());
    if matches!(kind, EntryKind::Other) {
        let zero = zero_address();
        return Ok(
            HistoryEntry {
                kind,
                from: zero,
                to: zero,
                amount: 0,
                nonce: 0,
                to_nonce: 0,
                succeeded,
                created_at,
            },
        );
    }
    let tx = match item.get("tx") {
        Some(v) => v,
        None => {
            return Err(LedgerError::MalformedLedgerResponse);
        },
    };
    let from = match read_address_field(tx, "from") {
        Some(a) => a,
        None => {
            return Err(LedgerError::MalformedLedgerResponse);
        },
    };
    let to = match read_address_field(tx, "to") {
        Some(a) => a,
        None => {
            return Err(LedgerError::MalformedLedgerResponse);
        },
    };
    let amount = match read_u64_field(tx, "amount") {
        Some(a) => a,
        None => {
            return Err(LedgerError::MalformedLedgerResponse);
        },
    };
    let nonce = match read_nonce_field(tx, "nonce") {
        Some(n) => n,
        None => {
            return Err(LedgerError::MalformedLedgerResponse);
        },
    };
    let to_nonce: u32 = if matches!(kind, EntryKind::TransferFrom) {
        match read_nonce_field(tx, "toNonce") {
            Some(n) => n,
            None => {
                return Err(LedgerError::MalformedLedgerResponse);
            },
        }
    } else {
        0
    };
    Ok(HistoryEntry { kind, from, to, amount, nonce, to_nonce, succeeded, created_at })
}

/// The items of a history response body: the parsed elements, in the
/// body's order, when the body is a JSON array.
pub open spec fn spec_body_items(s: Seq<char>) -> Option<Seq<JsonVal>> {
    match json_of(s) {
        Some(JsonVal::Arr(items)) => Some(items@),
        _ => None,
    }
}

/// Decodes the whole transaction-history response body: a JSON array of
/// raw history items, decoded in order and unfiltered. The result is `Ok`
/// exactly when the body parses as an array whose every item is well
/// formed; any undecodable part makes the whole response malformed — it is
/// never mistaken for an empty history, which decodes as `Ok` of no
/// entries.
pub fn decode_history_body(body: &str) -> (r: Result<Vec<HistoryEntry>, LedgerError>)
    ensures
        r is Ok <==> (spec_body_items(body@) matches Some(items) && forall|i: int|
            0 <= i < items.len() ==> spec_entry_well_formed(#[trigger] items[i])),
        r matches Ok(v) ==> spec_body_items(body@) matches Some(items) && v@.len()
            == items.len() && (forall|i: int|
            0 <= i < items.len() ==> spec_entry_of(v@[i], #[trigger] items[i])),
        r matches Err(e) ==> e is MalformedLedgerResponse,
{
    let parsed = match json_parse(body) {
        Some(v) => v,
        None => {
            return Err(LedgerError::MalformedLedgerResponse);
        },
    };
    let items = match parsed {
        JsonVal::Arr(items) => items,
        _ => {
            return Err(LedgerError::MalformedLedgerResponse);
        },
    };
    let mut entries: Vec<HistoryEntry> = Vec::new();
    let n = items.len();
    let mut i: usize = 0;
    while i < n
        invariant
            0 <= i <= n,
            n == items@.len(),
            spec_body_items(body@) == Some(items@),
            entries@.len() == i,
            forall|j: int|
                0 <= j < i ==> spec_entry_well_formed(#[trigger] items@[j]) && spec_entry_of(
                    entries@[j],
                    items@[j],
                ),
        decreases n - i,
    {
        match decode_entry(&items[i]) {
            Ok(e) => entries.push(e),
            Err(e) => {
                proof {
                    assert(spec_body_items(body@)->Some_0 == items@);
                    assert(!spec_entry_well_formed(spec_body_items(body@)->Some_0[i as int]));
                }
                return Err(e);
            },
        }
        i = i + 1;
    }
    Ok(entries)
}

} // verus!
