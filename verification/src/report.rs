//! Descriptors in the form in which an event carries them.

use crate::image::{collect_images, collected, ImageDescriptor, ImageModel, LoadedModules};
use sentry_core::protocol::debugid::DebugId;
use sentry_core::protocol::{DebugImage, SymbolicDebugImage};
use sentry_core::types::Uuid;
use vstd::prelude::*;

verus! {

/// `sentry_core::protocol::DebugImage`, which the library hands on without
/// looking inside.
#[verifier::external_type_specification]
#[verifier::external_body]
pub struct ExDebugImage(DebugImage);

/// The symbolic debug image that `sentry_core` builds from a descriptor's
/// content.
pub uninterp spec fn symbolic_image(image: ImageModel) -> DebugImage;

/// The debug images of a sequence of descriptors, one for one.
pub open spec fn reported(images: Seq<ImageModel>) -> Seq<DebugImage> {
    Seq::new(images.len(), |i: int| symbolic_image(images[i]))
}

/// Fills a `SymbolicDebugImage` with the descriptor's fields, one for one, and
/// wraps it with `DebugImage::from`. The identifier is built by
/// `Uuid::from_bytes` and `DebugId::from_parts`, the two addresses by
/// `Addr::from`; the code identifier and the debug file's name, which a
/// descriptor does not have, stay unset. All of these only store what they are
/// given, so the result depends on the descriptor's content alone: that is all
/// the contract claims.
#[verifier::external_body]
fn report_image(image: &ImageDescriptor) -> (report: DebugImage)
    ensures
        report == symbolic_image(image@),
{
    let id = &image.debug_id;
    DebugImage::from(SymbolicDebugImage {
        name: image.name.clone(),
        arch: image.architecture.clone(),
        image_addr: image.base_address.into(),
        image_size: image.size,
        image_vmaddr: image.vmaddr_bias.into(),
        id: DebugId::from_parts(Uuid::from_bytes(id.uuid), id.generation),
        code_id: None,
        debug_file: None,
    })
}

/// Turns descriptors into debug images, one for each and in the same order.
pub fn report_images(images: &Vec<ImageDescriptor>) -> (reports: Vec<DebugImage>)
    ensures
        reports@ == reported(images.deep_view()),
        reports@.len() == images@.len(),
        forall|i: int| 0 <= i < images@.len() ==> reports@[i] == symbolic_image(images@[i]@),
{
    let mut reports: Vec<DebugImage> = Vec::new();
    let mut index: usize = 0;
    while index < images.len()
        invariant
            index <= images.len(),
            reports@.len() == index,
            forall|i: int| 0 <= i < index ==> reports@[i] == symbolic_image(images@[i]@),
        decreases images.len() - index,
    {
        reports.push(report_image(&images[index]));
        index += 1;
    }
    assert(reports@ =~= reported(images.deep_view()));
    reports
}

/// The debug images of an enumeration of the process's modules.
///
/// They are the images of the descriptors that [`collect_images`] gives for
/// the same enumeration and the same path of the executable: empty on an
/// unsupported platform, else one image for every module whose identifier
/// normalizes, in the loader's order.
pub fn debug_images(loaded: &LoadedModules, executable: &Option<String>) -> (reports: Vec<
    DebugImage,
>)
    ensures
        reports@ == reported(
            collected(loaded.supported, loaded.modules.deep_view(), executable.deep_view()),
        ),
        !loaded.supported ==> reports@.len() == 0,
{
    let images = collect_images(loaded, executable);
    report_images(&images)
}

} // verus!
