//! The native remuxer's decisions: which container writer the output
//! extension selects, what to do with each demuxed packet, and the
//! integrity line printed after a copy.

use vstd::prelude::*;
use crate::muxer::{seq_eq_ci, str_eq_ci};
use crate::strutil::{hex_str_pad, u64_to_hex_pad};

verus! {

/// The container writers the native remuxer has.
#[derive(Debug, Clone, Copy, PartialEq, Eq, Structural)]
pub enum RemuxContainer {
    Mkv,
    Mp4,
}

/// Which writer an output extension selects; unknown extensions are not
/// remuxed natively.
pub open spec fn spec_remux_container(ext: Seq<char>) -> Option<RemuxContainer> {
    if seq_eq_ci(ext, "mkv"@) || seq_eq_ci(ext, "webm"@) {
        Some(RemuxContainer::Mkv)
    } else if seq_eq_ci(ext, "mp4"@) || seq_eq_ci(ext, "mov"@) {
        Some(RemuxContainer::Mp4)
    } else {
        None
    }
}

/// Selects the native container writer for an output extension,
/// case-insensitively; `None` means the container is unsupported.
pub fn remux_container_for(ext: &str) -> (r: Option<RemuxContainer>)
    ensures
        r == spec_remux_container(ext@),
{
    if str_eq_ci(ext, "mkv") || str_eq_ci(ext, "webm") {
        Some(RemuxContainer::Mkv)
    } else if str_eq_ci(ext, "mp4") || str_eq_ci(ext, "mov") {
        Some(RemuxContainer::Mp4)
    } else {
        None
    }
}

/// What the packet-copy loop does with one demuxed packet.
#[derive(Debug, Clone, Copy, PartialEq, Eq, Structural)]
pub struct PacketAction {
    /// Write the packet to the output container.
    pub write: bool,
    /// Tick the progress indicator after writing.
    pub tick: bool,
}

/// One step of the packet-copy loop: a packet with a null codec is
/// skipped; every fiftieth written packet ticks the progress indicator.
/// `count_written` is how many packets were written before this one.
pub fn packet_step(count_written: usize, codec_is_null: bool) -> (r: PacketAction)
    requires
        count_written < usize::MAX,
    ensures
        r.write == !codec_is_null,
        r.tick == (!codec_is_null && (count_written + 1) % 50 == 0),
{
    if codec_is_null {
        PacketAction { write: false, tick: false }
    } else {
        PacketAction { write: true, tick: (count_written + 1) % 50 == 0 }
    }
}

/// The CRC-32 (IEEE) of a byte string, as the checksum library computes
/// it; a function of the bytes alone.
pub uninterp spec fn crc32_of(data: Seq<u8>) -> u32;

/// Relies on crc32fast::hash: the CRC-32 (IEEE) checksum of the bytes.
#[verifier::external_body]
fn crc32(data: &[u8]) -> (r: u32)
    ensures
        r == crc32_of(data@),
{
    crc32fast::hash(data)
}

/// The integrity line for a finished output file: its CRC-32, in eight
/// lower-case hexadecimal digits.
pub fn checksum_line(data: &[u8]) -> (r: String)
    ensures
        r@ == "🔒 CRC32: "@ + hex_str_pad(crc32_of(data@) as nat, 8),
{
    let h = crc32(data);
    let mut s = "🔒 CRC32: ".to_owned();
    let hx = u64_to_hex_pad(h as u64, 8);
    s.append(hx.as_str());
    s
}

} // verus!
