//! The hashing protocol shared by every search: the 85-byte message, the address derived from
//! its digest, the match rule, and the report of a match.

use crate::config::{ConfigView, ADDRESS_LEN};
use crate::encoding::{prefixed_hex_text_of, to_prefixed_hex};
use alloy_primitives::Keccak256;
use vstd::bytes::{
    lemma_auto_spec_u64_to_from_le_bytes, spec_u64_to_le_bytes, spec_u64_to_le_bytes_to_open,
};
use vstd::prelude::*;
use vstd::slice::slice_subrange;

verus! {

/// Length of the hashed message.
pub const MESSAGE_LEN: usize = 85;

/// Length of a digest.
pub const DIGEST_LEN: usize = 32;

/// First byte of every message.
pub const CONTROL_CHARACTER: u8 = 0xff;

/// A salt whose derived address begins with the pattern, as reported: three `0x`-prefixed
/// lowercase hexadecimal strings.
#[derive(Debug, Clone, PartialEq, Eq)]
pub struct FoundResult {
    pub salt: String,
    pub address: String,
    pub pattern: String,
}

/// What a report says.
pub struct FoundResultView {
    pub salt: Seq<char>,
    pub address: Seq<char>,
    pub pattern: Seq<char>,
}

impl View for FoundResult {
    type V = FoundResultView;

    open spec fn view(&self) -> FoundResultView {
        FoundResultView { salt: self.salt@, address: self.address@, pattern: self.pattern@ }
    }
}

/// What a list of reports says, report by report.
pub open spec fn found_views(found: Seq<FoundResult>) -> Seq<FoundResultView> {
    Seq::new(found.len(), |i: int| found[i]@)
}

/// The Keccak-256 digest of `message`, as `alloy_primitives::Keccak256` computes it.
pub uninterp spec fn keccak256_digest(message: Seq<u8>) -> Seq<u8>;

/// The 32-byte salt of a candidate: caller, salt segment, then the nonce in little-endian order.
pub open spec fn create2_salt(caller: Seq<u8>, segment: Seq<u8>, nonce: u64) -> Seq<u8> {
    caller + segment + spec_u64_to_le_bytes(nonce)
}

/// The message hashed for a candidate, 85 bytes when the fields have their widths: the
/// control byte at 0, the factory at 1, the caller at 21, the salt segment at 41, the nonce at
/// 45 with its least significant byte first, the codehash at 53. Bytes 21 to 52 are the
/// 32-byte salt.
pub open spec fn create2_message(
    factory: Seq<u8>,
    caller: Seq<u8>,
    segment: Seq<u8>,
    nonce: u64,
    codehash: Seq<u8>,
) -> Seq<u8> {
    seq![CONTROL_CHARACTER] + factory + create2_salt(caller, segment, nonce) + codehash
}

/// The address derived from a digest: its last 20 bytes.
pub open spec fn derived_address(digest: Seq<u8>) -> Seq<u8> {
    digest.subrange(DIGEST_LEN - ADDRESS_LEN, DIGEST_LEN as int)
}

/// The match rule: the address begins with the pattern.
pub open spec fn pattern_matches(address: Seq<u8>, pattern: Seq<u8>) -> bool {
    pattern.len() <= address.len() && forall|i: int|
        0 <= i < pattern.len() ==> address[i] == pattern[i]
}

/// The report of a candidate whose address is `address`.
pub open spec fn report_of(
    caller: Seq<u8>,
    segment: Seq<u8>,
    nonce: u64,
    address: Seq<u8>,
    pattern: Seq<u8>,
) -> FoundResultView {
    FoundResultView {
        salt: prefixed_hex_text_of(create2_salt(caller, segment, nonce)),
        address: prefixed_hex_text_of(address),
        pattern: prefixed_hex_text_of(pattern),
    }
}

/// What examining a candidate with a given digest gives: its report if the derived address
/// matches the pattern, nothing otherwise.
pub open spec fn examined(
    caller: Seq<u8>,
    pattern: Seq<u8>,
    segment: Seq<u8>,
    nonce: u64,
    digest: Seq<u8>,
) -> Option<FoundResultView> {
    if pattern_matches(derived_address(digest), pattern) {
        Some(report_of(caller, segment, nonce, derived_address(digest), pattern))
    } else {
        None
    }
}

/// What a candidate gives: its message is hashed and the digest examined.
pub open spec fn candidate_found(config: ConfigView, segment: Seq<u8>, nonce: u64) -> Option<
    FoundResultView,
> {
    examined(
        config.caller,
        config.pattern,
        segment,
        nonce,
        keccak256_digest(
            create2_message(config.factory, config.caller, segment, nonce, config.codehash),
        ),
    )
}

/// The widths of a report: the salt is `0x` and the 64 digits of 32 bytes, the address `0x`
/// and the 40 digits of 20 bytes.
pub open spec fn report_has_widths(report: FoundResultView) -> bool {
    report.salt.len() == 66 && report.address.len() == 42
}

/// Whether every report of a list has its widths.
pub open spec fn reports_have_widths(found: Seq<FoundResultView>) -> bool {
    forall|i: int| 0 <= i < found.len() ==> report_has_widths(#[trigger] found[i])
}

/// What an optional report says.
pub open spec fn found_view(found: Option<FoundResult>) -> Option<FoundResultView> {
    match found {
        Some(report) => Some(report@),
        None => None,
    }
}

/// `Keccak256::new`, `update` and `finalize_into` of `alloy_primitives`, on one message.
///
/// Trusted: the 32 bytes written are the digest of the message and of nothing else.
#[verifier::external_body]
pub(crate) fn keccak256(message: &[u8]) -> (digest: [u8; 32])
    ensures
        digest@ == keccak256_digest(message@),
{
    let mut hash = Keccak256::new();
    hash.update(message);
    let mut res = [0u8; 32];
    hash.finalize_into(&mut res);
    res
}

/// The eight bytes of `nonce`, least significant first.
pub fn nonce_bytes(nonce: u64) -> (bytes: [u8; 8])
    ensures
        bytes@ == spec_u64_to_le_bytes(nonce),
{
    let bytes = [
        (nonce & 0xff) as u8,
        ((nonce >> 8) & 0xff) as u8,
        ((nonce >> 16) & 0xff) as u8,
        ((nonce >> 24) & 0xff) as u8,
        ((nonce >> 32) & 0xff) as u8,
        ((nonce >> 40) & 0xff) as u8,
        ((nonce >> 48) & 0xff) as u8,
        ((nonce >> 56) & 0xff) as u8,
    ];
    proof {
        spec_u64_to_le_bytes_to_open(nonce);
    }
    bytes
}

fn copy_into(message: &mut [u8; 85], at: usize, field: &[u8])
    requires
        at + field@.len() <= MESSAGE_LEN,
    ensures
        final(message)@ == old(message)@.subrange(0, at as int) + field@ + old(message)@.subrange(
            at + field@.len(),
            MESSAGE_LEN as int,
        ),
{
    let len = field.len();
    let mut i: usize = 0;
    while i < len
        invariant
            i <= len,
            len == field@.len(),
            at + len <= MESSAGE_LEN,
            forall|k: int| 0 <= k < at ==> message@[k] == old(message)@[k],
            forall|k: int| at <= k < at + i ==> message@[k] == field@[k - at],
            forall|k: int| at + i <= k < MESSAGE_LEN ==> message@[k] == old(message)@[k],
        decreases len - i,
    {
        message[at + i] = field[i];
        i += 1;
    }
}

/// Lays out the message of a candidate.
pub fn build_message(
    factory: &[u8; 20],
    caller: &[u8; 20],
    segment: &[u8; 4],
    nonce: u64,
    codehash: &[u8; 32],
) -> (message: [u8; 85])
    ensures
        message@ == create2_message(factory@, caller@, segment@, nonce, codehash@),
        message@.subrange(21, 53) == create2_salt(caller@, segment@, nonce),
{
    let nonce = nonce_bytes(nonce);
    let mut message = [0u8;85];
    message[0] = CONTROL_CHARACTER;
    copy_into(&mut message, 1, factory);
    copy_into(&mut message, 21, caller);
    copy_into(&mut message, 41, segment);
    copy_into(&mut message, 45, &nonce);
    copy_into(&mut message, 53, codehash);
    message
}

/// Applies the match rule to the address derived from `digest`. Stops at the first byte that
/// differs.
pub fn digest_matches(digest: &[u8; 32], pattern: &[u8]) -> (matches: bool)
    ensures
        matches == pattern_matches(derived_address(digest@), pattern@),
{
    if pattern.len() > ADDRESS_LEN {
        return false;
    }
    let mut idx: usize = 0;
    while idx < pattern.len()
        invariant
            idx <= pattern@.len() <= ADDRESS_LEN,
            forall|k: int| 0 <= k < idx ==> derived_address(digest@)[k] == pattern@[k],
        decreases pattern@.len() - idx,
    {
        if digest[12 + idx] != pattern[idx] {
            return false;
        }
        idx += 1;
    }
    true
}

/// Examines a candidate whose message and digest are given: its report if the address derived
/// from the digest matches, nothing otherwise. The reported salt is bytes 21 to 52 of the
/// message.
pub fn examine_candidate(message: &[u8; 85], digest: &[u8; 32], pattern: &[u8]) -> (found: Option<
    FoundResult,
>)
    ensures
        found is Some <==> pattern_matches(derived_address(digest@), pattern@),
        found matches Some(report) ==> report@ == (FoundResultView {
            salt: prefixed_hex_text_of(message@.subrange(21, 53)),
            address: prefixed_hex_text_of(derived_address(digest@)),
            pattern: prefixed_hex_text_of(pattern@),
        }),
        found matches Some(report) ==> report_has_widths(report@),
{
    if digest_matches(digest, pattern) {
        let salt = to_prefixed_hex(slice_subrange(message.as_slice(), 21, 53));
        let address = to_prefixed_hex(slice_subrange(digest.as_slice(), 12, 32));
        let pattern = to_prefixed_hex(pattern);
        Some(FoundResult { salt, address, pattern })
    } else {
        None
    }
}

/// Hashes one candidate and examines it.
pub fn check_candidate(
    factory: &[u8; 20],
    caller: &[u8; 20],
    codehash: &[u8; 32],
    pattern: &[u8],
    segment: &[u8; 4],
    nonce: u64,
) -> (found: Option<FoundResult>)
    ensures
        found_view(found) == examined(
            caller@,
            pattern@,
            segment@,
            nonce,
            keccak256_digest(create2_message(factory@, caller@, segment@, nonce, codehash@)),
        ),
        keccak256_digest(create2_message(factory@, caller@, segment@, nonce, codehash@)).len()
            == DIGEST_LEN,
        found matches Some(report) ==> report_has_widths(report@),
{
    let message = build_message(factory, caller, segment, nonce, codehash);
    let digest = keccak256(message.as_slice());
    examine_candidate(&message, &digest, pattern)
}

/// The layout of the message: 85 bytes, each field at its place, and the 32-byte salt in the
/// middle.
pub proof fn lemma_message_layout(
    factory: Seq<u8>,
    caller: Seq<u8>,
    segment: Seq<u8>,
    nonce: u64,
    codehash: Seq<u8>,
)
    requires
        factory.len() == 20,
        caller.len() == 20,
        segment.len() == 4,
        codehash.len() == 32,
    ensures
        ({
            let message = create2_message(factory, caller, segment, nonce, codehash);
            &&& message.len() == MESSAGE_LEN
            &&& message[0] == CONTROL_CHARACTER
            &&& message.subrange(1, 21) == factory
            &&& message.subrange(21, 41) == caller
            &&& message.subrange(41, 45) == segment
            &&& message.subrange(45, 53) == spec_u64_to_le_bytes(nonce)
            &&& message.subrange(53, 85) == codehash
            &&& message.subrange(21, 53) == create2_salt(caller, segment, nonce)
        }),
{
    lemma_auto_spec_u64_to_from_le_bytes();
    let message = create2_message(factory, caller, segment, nonce, codehash);
    assert(message.subrange(1, 21) =~= factory);
    assert(message.subrange(21, 41) =~= caller);
    assert(message.subrange(41, 45) =~= segment);
    assert(message.subrange(45, 53) =~= spec_u64_to_le_bytes(nonce));
    assert(message.subrange(53, 85) =~= codehash);
    assert(message.subrange(21, 53) =~= create2_salt(caller, segment, nonce));
}

/// A pattern as long as an address matches only the address equal to it.
pub proof fn lemma_full_pattern_is_equality(address: Seq<u8>, pattern: Seq<u8>)
    requires
        address.len() == ADDRESS_LEN,
        pattern.len() == ADDRESS_LEN,
    ensures
        pattern_matches(address, pattern) <==> address == pattern,
{
    if pattern_matches(address, pattern) {
        assert(address =~= pattern);
    }
}

/// A pattern of one byte matches exactly the addresses whose first byte it is, whatever the
/// other bytes are.
pub proof fn lemma_single_byte_pattern(address: Seq<u8>, pattern: Seq<u8>)
    requires
        address.len() == ADDRESS_LEN,
        pattern.len() == 1,
    ensures
        pattern_matches(address, pattern) <==> address[0] == pattern[0],
{
}

} // verus!
