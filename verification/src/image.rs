//! Assembly of the final application image.
//!
//! The assembler drives the pipeline in a fixed order — signature
//! validation first (failing the whole transform on a diagnostic), then
//! metadata layout, then handler selection — and composes the results
//! into one image unit. The caller carries the entry function's body
//! alongside, untouched; it is emitted under an unmangled symbol so the
//! loader can locate it.

use crate::handler::handler_for;
use crate::handler::select_handler;
use crate::handler::BuildMode;
use crate::handler::HandlerVariant;
use crate::layout::api_level_block;
use crate::layout::app_icon_block;
use crate::layout::app_name_block;
use crate::layout::MetadataBlock;
use crate::layout::API_LEVEL_SECTION;
use crate::layout::APP_ICON_SECTION;
use crate::layout::APP_NAME_SECTION;
use crate::sig::validation_of;
use crate::sig::verify_sig;
use crate::sig::SigError;
use crate::sig::SignatureShape;
use vstd::bytes::spec_u32_to_le_bytes;
use vstd::prelude::*;
use vstd::utf8::encode_utf8;

verus! {

/// The build configuration, loaded once per build and immutable after
/// load. The icon asset has already been resolved to its raw contents by
/// the caller; the transform records and carries them, never interprets
/// them.
pub struct BuildConfig {
    /// The application's display name.
    pub name: String,
    /// The numeric contract version the loader checks for compatibility.
    pub api_level: u32,
    /// The icon asset's raw contents.
    pub icon: Vec<u8>,
    /// Optional external data location, carried for the build's other
    /// consumers; the transform itself never reads it.
    pub external_data: Option<String>,
}

/// The terminal artifact of one transform invocation: the three metadata
/// blocks bound to their mandated link sections, the selected fatal-error
/// handler, and the validated, normalized entry signature.
pub struct ImageUnit {
    pub app_name: MetadataBlock,
    pub api_level: MetadataBlock,
    pub app_icon: MetadataBlock,
    pub handler: HandlerVariant,
    pub entry_signature: SignatureShape,
}

impl ImageUnit {
    /// Well-formedness: every block's recorded length matches its bytes,
    /// and the entry signature declares no parameters.
    pub open spec fn wf(self) -> bool {
        &&& self.app_name.wf()
        &&& self.api_level.wf()
        &&& self.app_icon.wf()
        &&& self.entry_signature.params@.len() == 0
    }
}

/// Runs the whole transform: validates the entry signature,
/// short-circuiting on its diagnostic verbatim, then lays out the three
/// metadata blocks from the configuration and selects the handler for the
/// build mode. Succeeds if and only if the signature is valid; nothing is
/// emitted otherwise.
pub fn assemble(sig: SignatureShape, config: BuildConfig, mode: BuildMode) -> (r: Result<
    ImageUnit,
    SigError,
>)
    ensures
        validation_of(sig) matches Err(e) ==> r == Err::<ImageUnit, SigError>(e),
        validation_of(sig) is Ok ==> (r matches Ok(u) && u.wf() && u.app_name.bytes@
            == encode_utf8(config.name@).push(0u8) && u.app_name.byte_length == encode_utf8(
            config.name@,
        ).len() + 1 && u.api_level.bytes@ == spec_u32_to_le_bytes(config.api_level)
            && u.app_icon.bytes@ == config.icon@ && u.app_icon.byte_length == config.icon@.len()
            && u.handler == handler_for(mode) && u.app_name.link_section@ == APP_NAME_SECTION@
            && u.api_level.link_section@ == API_LEVEL_SECTION@ && u.app_icon.link_section@
            == APP_ICON_SECTION@),
{
    let mut entry_signature = sig;
    match verify_sig(&mut entry_signature) {
        Err(e) => Err(e),
        Ok(()) => {
            let app_name = app_name_block(config.name.as_str());
            let api_level = api_level_block(config.api_level);
            let app_icon = app_icon_block(config.icon);
            let handler = select_handler(mode);
            Ok(ImageUnit { app_name, api_level, app_icon, handler, entry_signature })
        },
    }
}

} // verus!
