//! Wire layout of the two report protocols: buffer sizes, the offsets that
//! carry command and marker bytes, and the decoding of the value byte.

use vstd::prelude::*;

verus! {

/// Size of a feature report, report identifier included.
pub const FEATURE_REPORT_LEN: usize = 65;

/// Size of an output or input report of the write/read protocol.
pub const RAW_REPORT_LEN: usize = 64;

/// Offset of the first command-class byte of a feature-report command.
pub const FEATURE_CLASS_OFFSET: usize = 3;

/// Offset of the second command-class byte of a feature-report command.
pub const FEATURE_SUBCLASS_OFFSET: usize = 4;

/// Value of both command-class bytes of a feature-report query.
pub const FEATURE_CLASS_QUERY: u8 = 0x02;

/// Offset of the first byte of the request marker of a feature-report command.
pub const FEATURE_MARKER_OFFSET: usize = 5;

/// Marker byte of the battery query, at the middle marker offset.
pub const FEATURE_BATTERY_MARKER: u8 = 0x83;

/// First marker byte of the polling-rate query.
pub const FEATURE_POLLING_MARKER_LOW: u8 = 0x01;

/// Middle marker byte of the polling-rate query.
pub const FEATURE_POLLING_MARKER_MID: u8 = 0x80;

/// Last marker byte of the polling-rate query.
pub const FEATURE_POLLING_MARKER_HIGH: u8 = 0x01;

/// Offset of the report identifier of a write/read command.
pub const RAW_REPORT_ID_OFFSET: usize = 0;

/// Report identifier of every write/read command.
pub const RAW_REPORT_ID: u8 = 0x04;

/// Offset of the command marker of a write/read command.
pub const RAW_MARKER_OFFSET: usize = 3;

/// Marker of the priming command that opens a write/read query.
pub const RAW_HANDSHAKE_MARKER: u8 = 0xaa;

/// Marker of the battery command of the write/read protocol.
pub const RAW_BATTERY_MARKER: u8 = 0x1a;

/// Offset of the value byte in every response, under both protocols.
pub const VALUE_OFFSET: usize = 8;

/// Time, in milliseconds, that the firmware needs between a command and the
/// moment its response can be read. It gives no completion signal.
pub const SETTLE_DELAY_MS: u64 = 100;

/// What can be asked of a mouse.
#[derive(Clone, Copy, Debug, PartialEq, Eq, Structural)]
pub enum Query {
    Battery,
    PollingRate,
}

/// The 65 bytes of the feature-report command for a query.
pub open spec fn feature_command(query: Query) -> Seq<u8> {
    Seq::new(
        FEATURE_REPORT_LEN as nat,
        |i: int|
            if i == FEATURE_CLASS_OFFSET || i == FEATURE_SUBCLASS_OFFSET {
                FEATURE_CLASS_QUERY
            } else {
                match query {
                    Query::Battery => if i == FEATURE_MARKER_OFFSET + 1 {
                        FEATURE_BATTERY_MARKER
                    } else {
                        0u8
                    },
                    Query::PollingRate => if i == FEATURE_MARKER_OFFSET {
                        FEATURE_POLLING_MARKER_LOW
                    } else if i == FEATURE_MARKER_OFFSET + 1 {
                        FEATURE_POLLING_MARKER_MID
                    } else if i == FEATURE_MARKER_OFFSET + 2 {
                        FEATURE_POLLING_MARKER_HIGH
                    } else {
                        0u8
                    },
                }
            },
    )
}

/// The 64 bytes of a write/read command with the given marker.
pub open spec fn raw_command(marker: u8) -> Seq<u8> {
    Seq::new(
        RAW_REPORT_LEN as nat,
        |i: int|
            if i == RAW_REPORT_ID_OFFSET {
                RAW_REPORT_ID
            } else if i == RAW_MARKER_OFFSET {
                marker
            } else {
                0u8
            },
    )
}

/// A buffer of `len` zero bytes.
pub open spec fn zeroed(len: nat) -> Seq<u8> {
    Seq::new(len, |i: int| 0u8)
}

/// The polling rate, in hertz, that a value byte stands for; zero where the
/// byte is none of the seven known codes.
pub open spec fn polling_rate_of(raw: u8) -> u16 {
    if raw == 0x08 {
        125
    } else if raw == 0x04 {
        250
    } else if raw == 0x02 {
        500
    } else if raw == 0x01 {
        1000
    } else if raw == 0x20 {
        2000
    } else if raw == 0x40 {
        4000
    } else if raw == 0x80 {
        8000
    } else {
        0
    }
}

/// Builds the feature-report command for a query.
pub fn build_feature_command(query: Query) -> (command: [u8; FEATURE_REPORT_LEN])
    ensures
        command@ == feature_command(query),
{
    let mut command: [u8; FEATURE_REPORT_LEN] = [0u8; FEATURE_REPORT_LEN];
    command[FEATURE_CLASS_OFFSET] = FEATURE_CLASS_QUERY;
    command[FEATURE_SUBCLASS_OFFSET] = FEATURE_CLASS_QUERY;
    match query {
        Query::Battery => {
            command[FEATURE_MARKER_OFFSET + 1] = FEATURE_BATTERY_MARKER;
        },
        Query::PollingRate => {
            command[FEATURE_MARKER_OFFSET] = FEATURE_POLLING_MARKER_LOW;
            command[FEATURE_MARKER_OFFSET + 1] = FEATURE_POLLING_MARKER_MID;
            command[FEATURE_MARKER_OFFSET + 2] = FEATURE_POLLING_MARKER_HIGH;
        },
    }
    assert(command@ =~= feature_command(query));
    command
}

/// Builds a write/read command with the given marker.
pub fn build_raw_command(marker: u8) -> (command: [u8; RAW_REPORT_LEN])
    ensures
        command@ == raw_command(marker),
{
    let mut command: [u8; RAW_REPORT_LEN] = [0u8; RAW_REPORT_LEN];
    command[RAW_REPORT_ID_OFFSET] = RAW_REPORT_ID;
    command[RAW_MARKER_OFFSET] = marker;
    assert(command@ =~= raw_command(marker));
    command
}

/// Decodes the value byte of a polling-rate response.
pub fn decode_polling_rate(raw: u8) -> (rate: u16)
    ensures
        rate == polling_rate_of(raw),
{
    match raw {
        0x08 => 125,
        0x04 => 250,
        0x02 => 500,
        0x01 => 1000,
        0x20 => 2000,
        0x40 => 4000,
        0x80 => 8000,
        _ => 0,
    }
}

} // verus!
