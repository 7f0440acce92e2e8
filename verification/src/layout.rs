//! Layout of the fixed-format metadata blocks.
//!
//! The device's loader reads three byte regions at pre-agreed link
//! sections: the application name, the API level, and the application
//! icon. Their layout is byte-exact by contract — any change breaks
//! loader compatibility — and is a deterministic function of the build
//! configuration alone.

use vstd::bytes::lemma_auto_spec_u32_to_from_le_bytes;
use vstd::bytes::spec_u32_from_le_bytes;
use vstd::bytes::spec_u32_to_le_bytes;
use vstd::bytes::u32_from_le_bytes;
use vstd::bytes::u32_to_le_bytes;
use vstd::prelude::*;
use vstd::slice::slice_to_vec;
use vstd::string::StringSliceAdditionalSpecFns;

verus! {

/// Link section the loader reads the application name from.
pub const APP_NAME_SECTION: &'static str = ".rodata.eadk_app_name";

/// Link section the loader reads the API level from.
pub const API_LEVEL_SECTION: &'static str = ".rodata.eadk_api_level";

/// Link section the loader reads the application icon from.
pub const APP_ICON_SECTION: &'static str = ".rodata.eadk_app_icon";

/// One fixed-layout metadata block, bound to the link section the loader
/// reads it from. Never mutated after construction.
pub struct MetadataBlock {
    pub link_section: &'static str,
    pub byte_length: usize,
    pub bytes: Vec<u8>,
}

impl MetadataBlock {
    /// A block is well formed when its recorded byte length matches its
    /// actual contents.
    pub open spec fn wf(self) -> bool {
        self.byte_length == self.bytes@.len()
    }
}

/// Builds the application-name block: the UTF-8 bytes of `name` followed
/// by exactly one terminating zero byte — mandatory even for an empty
/// name, which yields a single zero byte and a length of one.
pub fn app_name_block(name: &str) -> (b: MetadataBlock)
    ensures
        b.wf(),
        b.bytes@ == name.spec_bytes().push(0u8),
        b.byte_length == name.spec_bytes().len() + 1,
        b.bytes@.last() == 0u8,
        b.link_section@ == APP_NAME_SECTION@,
{
    let mut bytes = slice_to_vec(name.as_bytes());
    bytes.push(0u8);
    let byte_length = bytes.len();
    MetadataBlock { link_section: APP_NAME_SECTION, byte_length, bytes }
}

/// Builds the API-level block: the four-byte little-endian encoding of
/// the numeric contract version the loader checks for compatibility.
pub fn api_level_block(api_level: u32) -> (b: MetadataBlock)
    ensures
        b.wf(),
        b.bytes@ == spec_u32_to_le_bytes(api_level),
        b.byte_length == 4,
        spec_u32_from_le_bytes(b.bytes@) == api_level,
        b.link_section@ == API_LEVEL_SECTION@,
{
    proof {
        lemma_auto_spec_u32_to_from_le_bytes();
    }
    let bytes = u32_to_le_bytes(api_level);
    MetadataBlock { link_section: API_LEVEL_SECTION, byte_length: 4, bytes }
}

/// Builds the icon block from the icon asset's raw contents: the bytes
/// are carried through untouched, as an opaque blob whose length is
/// recorded but whose content is never interpreted.
pub fn app_icon_block(icon: Vec<u8>) -> (b: MetadataBlock)
    ensures
        b.wf(),
        b.bytes@ == icon@,
        b.byte_length == icon@.len(),
        b.link_section@ == APP_ICON_SECTION@,
{
    let byte_length = icon.len();
    MetadataBlock { link_section: APP_ICON_SECTION, byte_length, bytes: icon }
}

/// Decodes a four-byte little-endian block body back to its 32-bit value.
pub fn decode_api_level(bytes: &[u8]) -> (level: u32)
    requires
        bytes@.len() == 4,
    ensures
        level == spec_u32_from_le_bytes(bytes@),
{
    u32_from_le_bytes(bytes)
}

/// Law: the API-level block round-trips — decoding its four bytes as a
/// little-endian unsigned 32-bit integer yields exactly the level the
/// block was built from.
pub proof fn lemma_api_level_round_trips(api_level: u32)
    ensures
        spec_u32_from_le_bytes(spec_u32_to_le_bytes(api_level)) == api_level,
{
    lemma_auto_spec_u32_to_from_le_bytes();
    assert(spec_u32_to_le_bytes(api_level).len() == 4);
}

} // verus!
