//! Device identity: a one-way fingerprint of hardware identifiers and a
//! readable device name.
//!
//! On the primary desktop platform the identifiers come from two reports of
//! the hardware registry; elsewhere the machine's network name stands in.
//! An identifier that cannot be had, because the query could not be started
//! or its report does not hold it, is replaced by a fixed word, so that a
//! fingerprint is always produced.

use crate::process::{Invocation, InvocationView, ProcessOutcome, ProcessOutcomeView};
use crate::scan::{contains, occurs_at, quoted_value, read_quoted_value};
use crate::text::{decode_lossy, join, lossy_text, trim, trimmed};
use sha2::Digest;
use vstd::prelude::*;
use vstd::string::StringExecFns;
use vstd::utf8::encode_utf8;

verus! {

/// The SHA-256 digest of `data`.
pub uninterp spec fn sha256_digest(data: Seq<u8>) -> Seq<u8>;

/// `sha2::Sha256::digest` hashes the whole input in one call; the digest
/// depends on the input alone and is always thirty-two bytes long.
#[verifier::external_body]
fn sha256(data: &[u8]) -> (digest: Vec<u8>)
    ensures
        digest@ == sha256_digest(data@),
        digest@.len() == 32,
{
    sha2::Sha256::digest(data).to_vec()
}

/// `hostname::get` asks the operating system for the machine's network
/// name. Nothing is promised of the answer: it may be missing, and it may
/// change between calls.
#[verifier::external_body]
fn system_hostname() -> (name: Option<String>)
{
    match hostname::get() {
        Ok(name) => Some(name.to_string_lossy().into_owned()),
        Err(_) => None,
    }
}

/// The lower-case hexadecimal digit for `v`.
pub open spec fn hex_digit(v: nat) -> char
    recommends
        v < 16,
{
    if v < 10 {
        (48 + v) as char
    } else {
        (87 + v) as char
    }
}

/// `c` is one of `0` to `9` or `a` to `f`.
pub open spec fn is_lower_hex(c: char) -> bool {
    ('0' <= c <= '9') || ('a' <= c <= 'f')
}

/// Two lower-case hexadecimal digits for every byte, the high half first.
pub open spec fn hex_text(bytes: Seq<u8>) -> Seq<char> {
    Seq::new(
        2 * bytes.len(),
        |i: int|
            hex_digit(
                if i % 2 == 0 {
                    (bytes[i / 2] / 16) as nat
                } else {
                    (bytes[i / 2] % 16) as nat
                },
            ),
    )
}

/// The fingerprint of an identity string: the SHA-256 digest of its UTF-8
/// bytes, in hexadecimal.
pub open spec fn fingerprint_of(identity: Seq<char>) -> Seq<char> {
    hex_text(sha256_digest(encode_utf8(identity)))
}

fn hex_char(v: u8) -> (c: char)
    requires
        v < 16,
    ensures
        c == hex_digit(v as nat),
{
    if v < 10 {
        (48u8 + v) as char
    } else {
        (87u8 + v) as char
    }
}

/// Writes `bytes` in lower-case hexadecimal.
pub fn to_hex(bytes: &[u8]) -> (text: String)
    ensures
        text@ == hex_text(bytes@),
{
    let mut text = String::new();
    let mut i: usize = 0;
    while i < bytes.len()
        invariant
            i <= bytes.len(),
            text@ == hex_text(bytes@.take(i as int)),
        decreases bytes.len() - i,
    {
        let byte = bytes[i];
        text.push(hex_char(byte / 16));
        text.push(hex_char(byte % 16));
        assert(text@ =~= hex_text(bytes@.take(i + 1)));
        i += 1;
    }
    assert(bytes@.take(i as int) =~= bytes@);
    text
}

/// Computes the fingerprint of an identity string: sixty-four lower-case
/// hexadecimal digits.
pub fn fingerprint(identity: &str) -> (digest: String)
    ensures
        digest@ == fingerprint_of(identity@),
        digest@.len() == 64,
{
    let hash = sha256(identity.as_bytes());
    to_hex(hash.as_slice())
}

/// The query for the platform device report, which holds the platform UUID.
pub open spec fn platform_query_of() -> InvocationView {
    InvocationView { program: "ioreg"@, args: seq!["-d2"@, "-c"@, "IOPlatformExpertDevice"@] }
}

/// The query for the full registry listing, which holds the serial number.
pub open spec fn listing_query_of() -> InvocationView {
    InvocationView { program: "ioreg"@, args: seq!["-l"@] }
}

/// The query for the computer name that the user configured.
pub open spec fn computer_name_query_of() -> InvocationView {
    InvocationView { program: "scutil"@, args: seq!["--get"@, "ComputerName"@] }
}

/// The query for the platform device report.
pub fn platform_query() -> (query: Invocation)
    ensures
        query@ == platform_query_of(),
{
    let mut args: Vec<String> = Vec::new();
    args.push(String::from_str("-d2"));
    args.push(String::from_str("-c"));
    args.push(String::from_str("IOPlatformExpertDevice"));
    assert(args.deep_view() =~= platform_query_of().args);
    Invocation { program: String::from_str("ioreg"), args }
}

/// The query for the full registry listing.
pub fn listing_query() -> (query: Invocation)
    ensures
        query@ == listing_query_of(),
{
    let mut args: Vec<String> = Vec::new();
    args.push(String::from_str("-l"));
    assert(args.deep_view() =~= listing_query_of().args);
    Invocation { program: String::from_str("ioreg"), args }
}

/// The query for the configured computer name.
pub fn computer_name_query() -> (query: Invocation)
    ensures
        query@ == computer_name_query_of(),
{
    let mut args: Vec<String> = Vec::new();
    args.push(String::from_str("--get"));
    args.push(String::from_str("ComputerName"));
    assert(args.deep_view() =~= computer_name_query_of().args);
    Invocation { program: String::from_str("scutil"), args }
}

/// Where the identity of the device comes from.
#[derive(Debug, Clone, PartialEq, Eq)]
pub enum DeviceIdentitySource {
    /// The outcomes of the two queries of the hardware registry: the
    /// platform device report, which holds the platform UUID, and the full
    /// listing, which holds the serial number.
    HardwareRegistry { platform: ProcessOutcome, listing: ProcessOutcome },
    /// The machine's network name, or `None` if it could not be read.
    Hostname(Option<String>),
}

/// Mathematical content of a [`DeviceIdentitySource`].
pub enum DeviceIdentitySourceView {
    HardwareRegistry { platform: ProcessOutcomeView, listing: ProcessOutcomeView },
    Hostname(Option<Seq<char>>),
}

impl View for DeviceIdentitySource {
    type V = DeviceIdentitySourceView;

    open spec fn view(&self) -> DeviceIdentitySourceView {
        match self {
            DeviceIdentitySource::HardwareRegistry { platform, listing } => {
                DeviceIdentitySourceView::HardwareRegistry {
                    platform: platform@,
                    listing: listing@,
                }
            },
            DeviceIdentitySource::Hostname(name) => DeviceIdentitySourceView::Hostname(
                name.deep_view(),
            ),
        }
    }
}

/// The identifier that a registry query gives for `key`: the value found in
/// what the query printed, or `stand_in` where the query could not be
/// started or printed no such value.
pub open spec fn registry_identifier(
    outcome: ProcessOutcomeView,
    key: Seq<char>,
    stand_in: Seq<char>,
) -> Seq<char> {
    match outcome {
        ProcessOutcomeView::Exited(output) => match quoted_value(lossy_text(output.stdout), key) {
            Some(found) => found,
            None => stand_in,
        },
        ProcessOutcomeView::LaunchFailed(_) => stand_in,
    }
}

/// The platform UUID that the platform device report gives, or the word that
/// stands in for a missing one.
pub open spec fn hardware_uuid(platform: ProcessOutcomeView) -> Seq<char> {
    registry_identifier(platform, "IOPlatformUUID"@, "unknown-uuid"@)
}

/// The serial number that the registry listing gives, or the word that
/// stands in for a missing one.
pub open spec fn serial_number(listing: ProcessOutcomeView) -> Seq<char> {
    registry_identifier(listing, "IOPlatformSerialNumber"@, "unknown-serial"@)
}

/// The string that identifies the device: the platform UUID and the serial
/// number joined by a dash, or the network name. Whatever cannot be had is
/// replaced by its stand-in, so that there always is an identity.
pub open spec fn device_identity(source: DeviceIdentitySourceView) -> Seq<char> {
    match source {
        DeviceIdentitySourceView::HardwareRegistry { platform, listing } => hardware_uuid(
            platform,
        ) + "-"@ + serial_number(listing),
        DeviceIdentitySourceView::Hostname(Some(name)) => name,
        DeviceIdentitySourceView::Hostname(None) => "unknown"@,
    }
}

/// The device fingerprint for `source`: the fingerprint of the identity
/// string.
pub open spec fn device_id(source: DeviceIdentitySourceView) -> Seq<char> {
    fingerprint_of(device_identity(source))
}

/// Mathematical content of a text or a diagnostic.
pub open spec fn text_result(result: Result<String, String>) -> Result<Seq<char>, Seq<char>> {
    match result {
        Ok(text) => Ok(text@),
        Err(message) => Err(message@),
    }
}

fn identifier_or(outcome: &ProcessOutcome, key: &str, stand_in: &str) -> (identifier: String)
    ensures
        identifier@ == registry_identifier(outcome@, key@, stand_in@),
{
    match outcome {
        ProcessOutcome::Exited(output) => {
            let text = decode_lossy(output.stdout.as_slice());
            match read_quoted_value(text.as_str(), key) {
                Some(found) => found,
                None => String::from_str(stand_in),
            }
        },
        ProcessOutcome::LaunchFailed(_) => String::from_str(stand_in),
    }
}

/// Derives the device fingerprint from what `source` holds. It never fails:
/// an identifier that cannot be had is replaced by its stand-in.
pub fn get_device_id(source: &DeviceIdentitySource) -> (result: Result<String, String>)
    ensures
        text_result(result) == Ok::<Seq<char>, Seq<char>>(device_id(source@)),
        result matches Ok(digest) && digest@.len() == 64,
{
    match source {
        DeviceIdentitySource::HardwareRegistry { platform, listing } => {
            let mut identity = identifier_or(platform, "IOPlatformUUID", "unknown-uuid");
            let serial = identifier_or(listing, "IOPlatformSerialNumber", "unknown-serial");
            identity.append("-");
            identity.append(serial.as_str());
            Ok(fingerprint(identity.as_str()))
        },
        DeviceIdentitySource::Hostname(Some(name)) => Ok(fingerprint(name.as_str())),
        DeviceIdentitySource::Hostname(None) => Ok(fingerprint("unknown")),
    }
}

impl DeviceIdentitySource {
    /// Takes the identity from the machine's network name as the operating
    /// system reports it at this moment.
    pub fn from_hostname() -> (source: DeviceIdentitySource)
        ensures
            source is Hostname,
    {
        DeviceIdentitySource::Hostname(system_hostname())
    }
}

/// Where the readable name of the device comes from.
#[derive(Debug, Clone, PartialEq, Eq)]
pub enum DeviceNameSource {
    /// The outcome of asking the system configuration for the computer name.
    ComputerName(ProcessOutcome),
    /// The machine's network name, or `None` if it could not be read.
    Hostname(Option<String>),
}

/// Mathematical content of a [`DeviceNameSource`].
pub enum DeviceNameSourceView {
    ComputerName(ProcessOutcomeView),
    Hostname(Option<Seq<char>>),
}

impl View for DeviceNameSource {
    type V = DeviceNameSourceView;

    open spec fn view(&self) -> DeviceNameSourceView {
        match self {
            DeviceNameSource::ComputerName(outcome) => DeviceNameSourceView::ComputerName(
                outcome@,
            ),
            DeviceNameSource::Hostname(name) => DeviceNameSourceView::Hostname(name.deep_view()),
        }
    }
}

/// The readable device name for `source`. A configured computer name is
/// used without the white space around it; a query that fails or answers
/// with nothing gives the generic name of the platform. A query that could
/// not be started is a hard error.
pub open spec fn device_name(source: DeviceNameSourceView) -> Result<Seq<char>, Seq<char>> {
    match source {
        DeviceNameSourceView::ComputerName(ProcessOutcomeView::LaunchFailed(reason)) => Err(
            "Failed to get device name: "@ + reason,
        ),
        DeviceNameSourceView::ComputerName(ProcessOutcomeView::Exited(output)) => if output.success
            && trimmed(lossy_text(output.stdout)).len() > 0 {
            Ok(trimmed(lossy_text(output.stdout)))
        } else {
            Ok("Mac"@)
        },
        DeviceNameSourceView::Hostname(Some(name)) => Ok(name),
        DeviceNameSourceView::Hostname(None) => Ok("Unknown Device"@),
    }
}

/// Gives the readable name of the device from what `source` holds.
pub fn get_device_name(source: &DeviceNameSource) -> (result: Result<String, String>)
    ensures
        text_result(result) == device_name(source@),
{
    match source {
        DeviceNameSource::ComputerName(ProcessOutcome::LaunchFailed(reason)) => Err(
            join("Failed to get device name: ", reason.as_str()),
        ),
        DeviceNameSource::ComputerName(ProcessOutcome::Exited(output)) => {
            if output.success {
                let text = decode_lossy(output.stdout.as_slice());
                let name = trim(text.as_str());
                if !name.as_str().is_empty() {
                    return Ok(name);
                }
            }
            Ok(String::from_str("Mac"))
        },
        DeviceNameSource::Hostname(Some(name)) => Ok(name.clone()),
        DeviceNameSource::Hostname(None) => Ok(String::from_str("Unknown Device")),
    }
}

impl DeviceNameSource {
    /// Takes the name from the machine's network name as the operating
    /// system reports it at this moment.
    pub fn from_hostname() -> (source: DeviceNameSource)
        ensures
            source is Hostname,
    {
        DeviceNameSource::Hostname(system_hostname())
    }
}

/// Every character of a hexadecimal text is a lower-case hexadecimal digit.
pub proof fn lemma_hex_text_chars(bytes: Seq<u8>)
    ensures
        hex_text(bytes).len() == 2 * bytes.len(),
        forall|i: int| 0 <= i < hex_text(bytes).len() ==> is_lower_hex(#[trigger] hex_text(bytes)[i]),
{
}

/// The fingerprint is a function of what the source holds: two sources with
/// the same content give the same fingerprint, however often it is asked
/// for.
pub proof fn lemma_device_id_repeatable(first: DeviceIdentitySource, second: DeviceIdentitySource)
    requires
        first@ == second@,
    ensures
        device_id(first@) == device_id(second@),
{
}

/// A registry query that could not be started costs no more than its
/// identifier: the stand-in takes the identifier's place, and the other
/// identifier is read as usual.
pub proof fn lemma_unstartable_query_stands_in(
    reason: Seq<char>,
    platform: ProcessOutcomeView,
    listing: ProcessOutcomeView,
)
    ensures
        device_identity(
            DeviceIdentitySourceView::HardwareRegistry {
                platform: ProcessOutcomeView::LaunchFailed(reason),
                listing,
            },
        ) == "unknown-uuid"@ + "-"@ + serial_number(listing),
        device_identity(
            DeviceIdentitySourceView::HardwareRegistry {
                platform,
                listing: ProcessOutcomeView::LaunchFailed(reason),
            },
        ) == hardware_uuid(platform) + "-"@ + "unknown-serial"@,
{
}

/// A fingerprint does not spell out an identifier: no text that holds a
/// character other than a lower-case hexadecimal digit occurs in it.
/// Platform UUIDs, with their dashes and capitals, are such texts.
pub proof fn lemma_fingerprint_hides_identifier(identity: Seq<char>, raw: Seq<char>)
    requires
        exists|i: int| 0 <= i < raw.len() && !is_lower_hex(#[trigger] raw[i]),
    ensures
        !contains(fingerprint_of(identity), raw),
{
    let digest = fingerprint_of(identity);
    lemma_hex_text_chars(sha256_digest(encode_utf8(identity)));
    let j = choose|i: int| 0 <= i < raw.len() && !is_lower_hex(#[trigger] raw[i]);
    assert forall|at: int| !occurs_at(digest, raw, at) by {
        if occurs_at(digest, raw, at) {
            assert(digest.subrange(at, at + raw.len())[j] == digest[at + j]);
            assert(is_lower_hex(digest[at + j]));
        }
    }
}

} // verus!
