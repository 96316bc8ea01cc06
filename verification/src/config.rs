//! The search configuration: its textual form, its validated form, and the validation between them.

use crate::encoding::{
    decode_hex, has_0x_prefix, has_hex_prefix, hex_digits_bytes, hex_text_of, is_hex_digit,
    is_hex_digits, lemma_hex_round_trip, lemma_prefixed_hex_round_trip,
    lemma_second_prefix_is_not_hex_text, prefixed_hex_text_of, strip_0x, without_hex_prefix,
};
use crate::text::{decimal, decimal_text};
use vstd::prelude::*;
use vstd::string::*;

verus! {

/// Width of the factory and caller addresses, and of a derived address, in bytes.
pub const ADDRESS_LEN: usize = 20;

/// Width of the initcode hash in bytes.
pub const CODEHASH_LEN: usize = 32;

/// Factory used when none is given.
pub const DEFAULT_FACTORY: &'static str = "0x0000000000FFe8B47B3e2130213B802212439497";

/// Work size used when none is given.
pub const DEFAULT_WORKSIZE: u32 = 0x4400000;

/// Pattern used when none is given: a single zero byte.
pub const DEFAULT_PATTERN: &'static str = "00";

/// A configuration as it arrives: hexadecimal text, each field with or without `0x`.
#[derive(Debug, Clone)]
pub struct RawConfig {
    pub factory: String,
    pub caller: String,
    pub codehash: String,
    pub worksize: u32,
    pub pattern: String,
}

/// A validated configuration, as the batch search takes it.
#[derive(Debug, Clone)]
pub struct MinerConfig {
    pub factory: [u8; 20],
    pub caller: [u8; 20],
    pub codehash: [u8; 32],
    pub worksize: u32,
    pub pattern: Vec<u8>,
    pub pattern_len: usize,
}

/// A validated configuration, as the device search takes it.
#[derive(Debug)]
pub struct AppConfig {
    pub factory: [u8; 20],
    pub caller: [u8; 20],
    pub codehash: [u8; 32],
    pub worksize: u32,
    pub pattern: Vec<u8>,
    pub pattern_len: usize,
}

/// Why a textual configuration was refused.
#[derive(Debug, Clone, PartialEq, Eq)]
pub enum ConfigError {
    /// A fixed-width field is not hexadecimal text; `expected` is the width it should have.
    InvalidHex { field: String, expected: usize, input: String },
    /// A fixed-width field decodes to another number of bytes than its width.
    InvalidLength { field: String, expected: usize, actual: usize },
    /// The pattern has no digits, or decodes to no bytes.
    EmptyPattern,
    /// The pattern is not hexadecimal text.
    InvalidPattern { input: String },
    /// The pattern decodes to more bytes than an address has.
    PatternTooLong { actual: usize },
}

/// What a textual configuration says.
pub struct RawConfigView {
    pub factory: Seq<char>,
    pub caller: Seq<char>,
    pub codehash: Seq<char>,
    pub worksize: u32,
    pub pattern: Seq<char>,
}

/// What a validated configuration holds.
pub struct ConfigView {
    pub factory: Seq<u8>,
    pub caller: Seq<u8>,
    pub codehash: Seq<u8>,
    pub worksize: u32,
    pub pattern: Seq<u8>,
}

/// What a refusal says.
pub enum ConfigErrorView {
    InvalidHex { field: Seq<char>, expected: nat, input: Seq<char> },
    InvalidLength { field: Seq<char>, expected: nat, actual: nat },
    EmptyPattern,
    InvalidPattern { input: Seq<char> },
    PatternTooLong { actual: nat },
}

impl View for RawConfig {
    type V = RawConfigView;

    open spec fn view(&self) -> RawConfigView {
        RawConfigView {
            factory: self.factory@,
            caller: self.caller@,
            codehash: self.codehash@,
            worksize: self.worksize,
            pattern: self.pattern@,
        }
    }
}

impl View for MinerConfig {
    type V = ConfigView;

    open spec fn view(&self) -> ConfigView {
        ConfigView {
            factory: self.factory@,
            caller: self.caller@,
            codehash: self.codehash@,
            worksize: self.worksize,
            pattern: self.pattern@,
        }
    }
}

impl View for AppConfig {
    type V = ConfigView;

    open spec fn view(&self) -> ConfigView {
        ConfigView {
            factory: self.factory@,
            caller: self.caller@,
            codehash: self.codehash@,
            worksize: self.worksize,
            pattern: self.pattern@,
        }
    }
}

impl View for ConfigError {
    type V = ConfigErrorView;

    open spec fn view(&self) -> ConfigErrorView {
        match *self {
            ConfigError::InvalidHex { field, expected, input } => ConfigErrorView::InvalidHex {
                field: field@,
                expected: expected as nat,
                input: input@,
            },
            ConfigError::InvalidLength { field, expected, actual } => ConfigErrorView::InvalidLength {
                field: field@,
                expected: expected as nat,
                actual: actual as nat,
            },
            ConfigError::EmptyPattern => ConfigErrorView::EmptyPattern,
            ConfigError::InvalidPattern { input } => ConfigErrorView::InvalidPattern { input: input@ },
            ConfigError::PatternTooLong { actual } => ConfigErrorView::PatternTooLong {
                actual: actual as nat,
            },
        }
    }
}

/// What a result says: what its value says, or what its error says.
pub open spec fn result_view<T: View, E: View>(result: Result<T, E>) -> Result<T::V, E::V> {
    match result {
        Ok(value) => Ok(value@),
        Err(error) => Err(error@),
    }
}

impl ConfigView {
    /// The field widths and the pattern's bounds.
    pub open spec fn wf(self) -> bool {
        &&& self.factory.len() == ADDRESS_LEN
        &&& self.caller.len() == ADDRESS_LEN
        &&& self.codehash.len() == CODEHASH_LEN
        &&& 1 <= self.pattern.len() <= ADDRESS_LEN
    }
}

impl MinerConfig {
    /// The pattern has 1 to 20 bytes and `pattern_len` is its length.
    pub open spec fn wf(&self) -> bool {
        &&& 1 <= self.pattern@.len() <= ADDRESS_LEN
        &&& self.pattern_len == self.pattern@.len()
    }

    /// Tests whether the configuration is well formed.
    pub fn is_well_formed(&self) -> (valid: bool)
        ensures
            valid == self.wf(),
    {
        1 <= self.pattern.len() && self.pattern.len() <= ADDRESS_LEN && self.pattern_len
            == self.pattern.len()
    }
}

impl AppConfig {
    /// The pattern has 1 to 20 bytes and `pattern_len` is its length.
    pub open spec fn wf(&self) -> bool {
        &&& 1 <= self.pattern@.len() <= ADDRESS_LEN
        &&& self.pattern_len == self.pattern@.len()
    }

    /// Tests whether the configuration is well formed.
    pub fn is_well_formed(&self) -> (valid: bool)
        ensures
            valid == self.wf(),
    {
        1 <= self.pattern.len() && self.pattern.len() <= ADDRESS_LEN && self.pattern_len
            == self.pattern.len()
    }

    /// The same configuration for the device search.
    pub fn from_miner_config(config: MinerConfig) -> (app: AppConfig)
        ensures
            app@ == config@,
            app.pattern_len == config.pattern_len,
            app.wf() == config.wf(),
    {
        AppConfig {
            factory: config.factory,
            caller: config.caller,
            codehash: config.codehash,
            worksize: config.worksize,
            pattern: config.pattern,
            pattern_len: config.pattern_len,
        }
    }
}

/// The text of a refusal, as it is shown to the user.
pub open spec fn error_message(error: ConfigErrorView) -> Seq<char> {
    match error {
        ConfigErrorView::InvalidHex { field, input, .. } => "Invalid hex string for "@ + field + ": '"@
            + input + "'."@,
        ConfigErrorView::InvalidLength { field, expected, actual } => "Invalid length for "@ + field
            + ". Expected "@ + decimal_text(expected) + " bytes, got "@ + decimal_text(actual)
            + " bytes."@,
        ConfigErrorView::EmptyPattern => "Pattern cannot be empty."@,
        ConfigErrorView::InvalidPattern { input } => "Invalid hex pattern provided: '"@ + input
            + "'."@,
        ConfigErrorView::PatternTooLong { actual } => "Pattern is too long ("@ + decimal_text(actual)
            + " bytes). Maximum address length is 20 bytes."@,
    }
}

/// The field a refusal is about.
pub open spec fn error_field(error: ConfigErrorView) -> Seq<char> {
    match error {
        ConfigErrorView::InvalidHex { field, .. } => field,
        ConfigErrorView::InvalidLength { field, .. } => field,
        _ => "pattern"@,
    }
}

/// The least and the greatest number of bytes the field of a refusal may have: its width for
/// a fixed-width field, 1 and 20 for the pattern.
pub open spec fn error_expected_bytes(error: ConfigErrorView) -> (nat, nat) {
    match error {
        ConfigErrorView::InvalidHex { expected, .. } => (expected, expected),
        ConfigErrorView::InvalidLength { expected, .. } => (expected, expected),
        _ => (1, ADDRESS_LEN as nat),
    }
}

/// The number of bytes that were found, where the text denotes bytes at all: text that is not
/// hexadecimal denotes none.
pub open spec fn error_actual_bytes(error: ConfigErrorView) -> Option<nat> {
    match error {
        ConfigErrorView::InvalidLength { actual, .. } => Some(actual),
        ConfigErrorView::PatternTooLong { actual } => Some(actual),
        ConfigErrorView::EmptyPattern => Some(0),
        _ => None,
    }
}

impl ConfigError {
    /// The least and the greatest number of bytes that the field may have.
    pub fn expected_bytes(&self) -> (bounds: (usize, usize))
        ensures
            (bounds.0 as nat, bounds.1 as nat) == error_expected_bytes(self@),
    {
        match self {
            ConfigError::InvalidHex { expected, .. } => (*expected, *expected),
            ConfigError::InvalidLength { expected, .. } => (*expected, *expected),
            _ => (1, ADDRESS_LEN),
        }
    }

    /// The number of bytes that were found, if the text denotes bytes.
    pub fn actual_bytes(&self) -> (found: Option<usize>)
        ensures
            (found is Some) <==> (error_actual_bytes(self@) is Some),
            found matches Some(n) ==> error_actual_bytes(self@) == Some(n as nat),
    {
        match self {
            ConfigError::InvalidLength { actual, .. } => Some(*actual),
            ConfigError::PatternTooLong { actual } => Some(*actual),
            ConfigError::EmptyPattern => Some(0),
            _ => None,
        }
    }

    /// The name of the field this refusal is about.
    pub fn field(&self) -> (name: String)
        ensures
            name@ == error_field(self@),
    {
        match self {
            ConfigError::InvalidHex { field, .. } => field.clone(),
            ConfigError::InvalidLength { field, .. } => field.clone(),
            _ => String::from_str("pattern"),
        }
    }

    /// The text of this refusal. It names the field, and the expected and the actual length
    /// wherever the refusal is about a length.
    pub fn message(&self) -> (text: String)
        ensures
            text@ == error_message(self@),
    {
        match self {
            ConfigError::InvalidHex { field, input, .. } => {
                let mut text = String::from_str("Invalid hex string for ");
                text.append(field.as_str());
                text.append(": '");
                text.append(input.as_str());
                text.append("'.");
                text
            },
            ConfigError::InvalidLength { field, expected, actual } => {
                let mut text = String::from_str("Invalid length for ");
                text.append(field.as_str());
                text.append(". Expected ");
                text.append(decimal(*expected).as_str());
                text.append(" bytes, got ");
                text.append(decimal(*actual).as_str());
                text.append(" bytes.");
                text
            },
            ConfigError::EmptyPattern => String::from_str("Pattern cannot be empty."),
            ConfigError::InvalidPattern { input } => {
                let mut text = String::from_str("Invalid hex pattern provided: '");
                text.append(input.as_str());
                text.append("'.");
                text
            },
            ConfigError::PatternTooLong { actual } => {
                let mut text = String::from_str("Pattern is too long (");
                text.append(decimal(*actual).as_str());
                text.append(" bytes). Maximum address length is 20 bytes.");
                text
            },
        }
    }
}

impl RawConfig {
    /// The textual configuration of a run: what was given, and the default for what was not.
    /// Caller and codehash have no default.
    pub fn with_defaults(
        factory: Option<String>,
        caller: String,
        codehash: String,
        worksize: Option<u32>,
        pattern: Option<String>,
    ) -> (raw: RawConfig)
        ensures
            raw@ == (RawConfigView {
                factory: match factory {
                    Some(text) => text@,
                    None => DEFAULT_FACTORY@,
                },
                caller: caller@,
                codehash: codehash@,
                worksize: match worksize {
                    Some(size) => size,
                    None => DEFAULT_WORKSIZE,
                },
                pattern: match pattern {
                    Some(text) => text@,
                    None => DEFAULT_PATTERN@,
                },
            }),
    {
        RawConfig {
            factory: match factory {
                Some(text) => text,
                None => String::from_str(DEFAULT_FACTORY),
            },
            caller,
            codehash,
            worksize: match worksize {
                Some(size) => size,
                None => DEFAULT_WORKSIZE,
            },
            pattern: match pattern {
                Some(text) => text,
                None => String::from_str(DEFAULT_PATTERN),
            },
        }
    }
}

/// Whether a field's text denotes exactly `width` bytes: one optional prefix, then `2 * width`
/// hexadecimal digits and nothing else.
pub open spec fn denotes_bytes(input: Seq<char>, width: nat) -> bool {
    is_hex_digits(without_hex_prefix(input)) && hex_digits_bytes(without_hex_prefix(input)).len()
        == width
}

/// What validating a fixed-width field gives: the `width` bytes the text denotes, or the refusal.
///
/// One optional prefix is removed. What is left must be an even number of hexadecimal digits
/// and nothing else, so a second prefix is refused as any other text that is not hexadecimal.
pub open spec fn fixed_hex_parsed(input: Seq<char>, name: Seq<char>, width: nat) -> Result<
    Seq<u8>,
    ConfigErrorView,
> {
    let digits = without_hex_prefix(input);
    if !is_hex_digits(digits) {
        Err(ConfigErrorView::InvalidHex { field: name, expected: width, input })
    } else if hex_digits_bytes(digits).len() != width {
        Err(
            ConfigErrorView::InvalidLength {
                field: name,
                expected: width,
                actual: hex_digits_bytes(digits).len(),
            },
        )
    } else {
        Ok(hex_digits_bytes(digits))
    }
}

/// What validating a pattern gives: the 1 to 20 bytes the text denotes, or the refusal.
///
/// One optional prefix is removed. What is left must not be empty, and must be an even number
/// of hexadecimal digits and nothing else: at most 40 of them.
pub open spec fn pattern_parsed(input: Seq<char>) -> Result<Seq<u8>, ConfigErrorView> {
    let digits = without_hex_prefix(input);
    if digits.len() == 0 {
        Err(ConfigErrorView::EmptyPattern)
    } else if !is_hex_digits(digits) {
        Err(ConfigErrorView::InvalidPattern { input })
    } else if hex_digits_bytes(digits).len() > ADDRESS_LEN {
        Err(ConfigErrorView::PatternTooLong { actual: hex_digits_bytes(digits).len() })
    } else {
        Ok(hex_digits_bytes(digits))
    }
}

/// What validating a whole configuration gives. The fields are taken in the order factory,
/// caller, codehash, pattern, and the first refusal is the result.
pub open spec fn config_parsed(raw: RawConfigView) -> Result<ConfigView, ConfigErrorView> {
    match fixed_hex_parsed(raw.factory, "factory"@, ADDRESS_LEN as nat) {
        Err(e) => Err(e),
        Ok(factory) => match fixed_hex_parsed(raw.caller, "caller"@, ADDRESS_LEN as nat) {
            Err(e) => Err(e),
            Ok(caller) => match fixed_hex_parsed(raw.codehash, "codehash"@, CODEHASH_LEN as nat) {
                Err(e) => Err(e),
                Ok(codehash) => match pattern_parsed(raw.pattern) {
                    Err(e) => Err(e),
                    Ok(pattern) => Ok(
                        ConfigView { factory, caller, codehash, worksize: raw.worksize, pattern },
                    ),
                },
            },
        },
    }
}

/// Decodes a field that must be exactly `N` bytes wide.
pub fn parse_fixed_hex<const N: usize>(input: &str, name: &str) -> (parsed: Result<
    [u8; N],
    ConfigError,
>)
    ensures
        result_view(parsed) == fixed_hex_parsed(input@, name@, N as nat),
{
    let digits = strip_0x(input);
    if has_0x_prefix(digits) {
        proof {
            lemma_second_prefix_is_not_hex_text(input@);
        }
        return Err(
            ConfigError::InvalidHex {
                field: String::from_str(name),
                expected: N,
                input: String::from_str(input),
            },
        );
    }
    let data = match decode_hex(digits) {
        Ok(data) => data,
        Err(_) => {
            return Err(
                ConfigError::InvalidHex {
                    field: String::from_str(name),
                    expected: N,
                    input: String::from_str(input),
                },
            );
        },
    };
    if data.len() != N {
        return Err(
            ConfigError::InvalidLength {
                field: String::from_str(name),
                expected: N,
                actual: data.len(),
            },
        );
    }
    let mut out = [0u8;N];
    let mut i: usize = 0;
    while i < N
        invariant
            i <= N,
            data@.len() == N,
            forall|k: int| 0 <= k < i ==> out@[k] == data@[k],
        decreases N - i,
    {
        out[i] = data[i];
        i += 1;
    }
    assert(out@ =~= data@);
    Ok(out)
}

/// Decodes a pattern: 1 to 20 bytes.
pub fn parse_pattern(input: &str) -> (parsed: Result<Vec<u8>, ConfigError>)
    ensures
        result_view(parsed) == pattern_parsed(input@),
{
    let pattern_str = strip_0x(input);
    if pattern_str.is_empty() {
        return Err(ConfigError::EmptyPattern);
    }
    if has_0x_prefix(pattern_str) {
        proof {
            lemma_second_prefix_is_not_hex_text(input@);
        }
        return Err(ConfigError::InvalidPattern { input: String::from_str(input) });
    }
    let bytes = match decode_hex(pattern_str) {
        Ok(bytes) => bytes,
        Err(_) => {
            return Err(ConfigError::InvalidPattern { input: String::from_str(input) });
        },
    };
    if bytes.len() > ADDRESS_LEN {
        return Err(ConfigError::PatternTooLong { actual: bytes.len() });
    }
    Ok(bytes)
}

/// Validates a textual configuration.
///
/// Succeeds exactly when factory and caller denote 20 bytes, the codehash 32 and the pattern
/// 1 to 20; the result then holds those bytes and the work size unchanged.
pub fn parse_config(raw: RawConfig) -> (parsed: Result<MinerConfig, ConfigError>)
    ensures
        result_view(parsed) == config_parsed(raw@),
        parsed matches Ok(config) ==> config.wf() && config@.wf(),
{
    let factory = match parse_fixed_hex::<20>(raw.factory.as_str(), "factory") {
        Ok(bytes) => bytes,
        Err(e) => {
            return Err(e);
        },
    };
    let caller = match parse_fixed_hex::<20>(raw.caller.as_str(), "caller") {
        Ok(bytes) => bytes,
        Err(e) => {
            return Err(e);
        },
    };
    let codehash = match parse_fixed_hex::<32>(raw.codehash.as_str(), "codehash") {
        Ok(bytes) => bytes,
        Err(e) => {
            return Err(e);
        },
    };
    let pattern = match parse_pattern(raw.pattern.as_str()) {
        Ok(bytes) => bytes,
        Err(e) => {
            return Err(e);
        },
    };
    let pattern_len = pattern.len();
    Ok(MinerConfig { factory, caller, codehash, worksize: raw.worksize, pattern, pattern_len })
}

/// Valid configurations are accepted: whenever factory and caller are one optional prefix and
/// 40 hexadecimal digits, the codehash one optional prefix and 64, and the pattern one optional
/// prefix and 2 to 40, validation succeeds, and what it yields is exactly what the digits
/// denote.
pub proof fn lemma_valid_config_accepted(raw: RawConfigView)
    requires
        denotes_bytes(raw.factory, ADDRESS_LEN as nat),
        denotes_bytes(raw.caller, ADDRESS_LEN as nat),
        denotes_bytes(raw.codehash, CODEHASH_LEN as nat),
        is_hex_digits(without_hex_prefix(raw.pattern)),
        1 <= hex_digits_bytes(without_hex_prefix(raw.pattern)).len() <= ADDRESS_LEN,
    ensures
        config_parsed(raw) == Ok::<ConfigView, ConfigErrorView>(
            ConfigView {
                factory: hex_digits_bytes(without_hex_prefix(raw.factory)),
                caller: hex_digits_bytes(without_hex_prefix(raw.caller)),
                codehash: hex_digits_bytes(without_hex_prefix(raw.codehash)),
                worksize: raw.worksize,
                pattern: hex_digits_bytes(without_hex_prefix(raw.pattern)),
            },
        ),
{
}

/// Only valid configurations are accepted: validation succeeds on no other texts than those of
/// [`lemma_valid_config_accepted`].
pub proof fn lemma_accepted_config_is_valid(raw: RawConfigView)
    requires
        config_parsed(raw) is Ok,
    ensures
        denotes_bytes(raw.factory, ADDRESS_LEN as nat),
        denotes_bytes(raw.caller, ADDRESS_LEN as nat),
        denotes_bytes(raw.codehash, CODEHASH_LEN as nat),
        is_hex_digits(without_hex_prefix(raw.pattern)),
        1 <= hex_digits_bytes(without_hex_prefix(raw.pattern)).len() <= ADDRESS_LEN,
{
}

/// The hexadecimal text of any bytes, with or without `0x`, denotes those bytes.
pub proof fn lemma_encoded_field_denotes(bytes: Seq<u8>, prefixed: bool)
    ensures
        ({
            let input = if prefixed {
                prefixed_hex_text_of(bytes)
            } else {
                hex_text_of(bytes)
            };
            &&& without_hex_prefix(input) == hex_text_of(bytes)
            &&& denotes_bytes(input, bytes.len())
            &&& hex_digits_bytes(without_hex_prefix(input)) == bytes
        }),
{
    lemma_hex_round_trip(bytes);
    lemma_prefixed_hex_round_trip(bytes);
}

/// Validation gives back what was encoded: the texts of any 20, 20 and 32 bytes and of a
/// pattern of 1 to 20 bytes, each with or without `0x`, are accepted and yield those bytes.
pub proof fn lemma_encoded_config_round_trip(config: ConfigView, prefixed: bool)
    requires
        config.wf(),
    ensures
        ({
            let text = |bytes: Seq<u8>|
                if prefixed {
                    prefixed_hex_text_of(bytes)
                } else {
                    hex_text_of(bytes)
                };
            config_parsed(
                RawConfigView {
                    factory: text(config.factory),
                    caller: text(config.caller),
                    codehash: text(config.codehash),
                    worksize: config.worksize,
                    pattern: text(config.pattern),
                },
            ) == Ok::<ConfigView, ConfigErrorView>(config)
        }),
{
    lemma_encoded_field_denotes(config.factory, prefixed);
    lemma_encoded_field_denotes(config.caller, prefixed);
    lemma_encoded_field_denotes(config.codehash, prefixed);
    lemma_encoded_field_denotes(config.pattern, prefixed);
}

/// Bad patterns are refused: a pattern that, after one optional prefix, is empty, begins
/// with another prefix, holds a character that is no hexadecimal digit, has an odd number of
/// digits, or has more than 40 makes validation fail, whatever the other fields hold.
pub proof fn lemma_bad_pattern_refused(raw: RawConfigView)
    requires
        ({
            let digits = without_hex_prefix(raw.pattern);
            ||| digits.len() == 0
            ||| has_hex_prefix(digits)
            ||| digits.len() % 2 != 0
            ||| (exists|i: int| 0 <= i < digits.len() && !is_hex_digit(#[trigger] digits[i]))
            ||| digits.len() > 2 * ADDRESS_LEN
        }),
    ensures
        pattern_parsed(raw.pattern) is Err,
        config_parsed(raw) is Err,
{
    if has_hex_prefix(without_hex_prefix(raw.pattern)) {
        lemma_second_prefix_is_not_hex_text(raw.pattern);
    }
}

/// Fixed-width fields that are not hexadecimal are refused: a field that, after one optional
/// prefix, begins with another prefix, holds a character that is no hexadecimal digit, or has
/// an odd number of digits is refused as invalid, and the refusal names the field and the
/// width it should have.
pub proof fn lemma_bad_fixed_hex_refused(input: Seq<char>, name: Seq<char>, width: nat)
    requires
        ({
            let digits = without_hex_prefix(input);
            ||| has_hex_prefix(digits)
            ||| digits.len() % 2 != 0
            ||| (exists|i: int| 0 <= i < digits.len() && !is_hex_digit(#[trigger] digits[i]))
        }),
    ensures
        fixed_hex_parsed(input, name, width) == Err::<Seq<u8>, ConfigErrorView>(
            ConfigErrorView::InvalidHex { field: name, expected: width, input },
        ),
{
    if has_hex_prefix(without_hex_prefix(input)) {
        lemma_second_prefix_is_not_hex_text(input);
    }
}

} // verus!
