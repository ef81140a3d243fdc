//! The handles of the Text Services Framework that composing holds on to.

use vstd::prelude::*;
use windows::Win32::UI::TextServices::{ITfComposition, ITfContext};

verus! {

/// `ITfComposition` of the `windows` crate: a counted reference to a composition in a document.
/// It is carried about; nothing inside it is looked at.
#[verifier::external_type_specification]
#[verifier::external_body]
pub struct ExITfComposition(ITfComposition);

/// `ITfContext` of the `windows` crate: a counted reference to a document context. It is carried
/// about; nothing inside it is looked at.
#[verifier::external_type_specification]
#[verifier::external_body]
pub struct ExITfContext(ITfContext);

/// `ITfComposition::clone`, which the `windows` crate derives from that of `IUnknown`: one more
/// reference is counted, and the handle returned holds the same interface pointer.
pub assume_specification[ <ITfComposition as Clone>::clone ](
    composition: &ITfComposition,
) -> (handle: ITfComposition)
    ensures
        handle == *composition,
;

/// `ITfContext::clone`, which the `windows` crate derives from that of `IUnknown`: one more
/// reference is counted, and the handle returned holds the same interface pointer.
pub assume_specification[ <ITfContext as Clone>::clone ](context: &ITfContext) -> (handle:
    ITfContext)
    ensures
        handle == *context,
;

/// `Interface::as_raw` of the `windows` crate: the interface pointer of the handle, here as a
/// number. The pointer of a handle is never null. Beyond that it is an address, so nothing is
/// claimed of which number it is; that two handles to the same object give the same number is left
/// unsaid.
#[verifier::external_body]
fn interface_address(context: &ITfContext) -> (address: usize)
    ensures
        address != 0,
{
    windows::core::Interface::as_raw(context) as usize
}

/// The token by which a document context is told from the others: the number of its interface
/// pointer, which is never zero. No reference is held.
pub fn context_token(context: &ITfContext) -> (token: usize)
    ensures
        token != 0,
{
    interface_address(context)
}

} // verus!
