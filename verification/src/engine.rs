//! The interception verdicts for the two filter callbacks.
//!
//! The pre-create callback sees every file-open request; the
//! pre-set-information callback sees every change of file information on
//! an open handle.  Both boil down to a pure decision from the operation's
//! parameters, the requesting process's image path (where one could be
//! resolved), and the current registry contents.  The kernel side extracts
//! those values, calls in, and acts on the answer — pass the operation
//! down, or complete it early with an access-denied status.

use vstd::prelude::*;

use crate::registry::matches_any;
use crate::registry::ProtectedNameRegistry;

verus! {

/// The open-time option requesting that the file be deleted once all
/// handles close.
pub const FILE_DELETE_ON_CLOSE: u32 = 0x1000;

/// The information class of a plain set-disposition request.
pub const FILE_DISPOSITION_INFORMATION: u32 = 13;

/// The information class of the extended set-disposition request.
pub const FILE_DISPOSITION_INFORMATION_EX: u32 = 64;

/// What a pre-operation callback tells the filter framework.
#[derive(Clone, Copy, Debug, PartialEq, Eq, Structural)]
pub enum PreopVerdict {
    /// Let the operation proceed to later filters and the file system.
    PassThrough,
    /// Complete the operation here with an access-denied status.
    CompleteAccessDenied,
}

/// The image path handed to a decision, as far as it could be resolved:
/// `None` when the process or its name could not be obtained.
pub open spec fn path_view(p: Option<&Vec<u8>>) -> Option<Seq<u8>> {
    match p {
        Some(v) => Some(v@),
        None => None,
    }
}

/// The core policy decision on a resolved identity: deny only a process
/// whose image path is non-empty and matches some registry entry.  An
/// unresolved identity is never denied (fail open).
pub open spec fn denies(entries: Seq<Seq<u8>>, image_path: Option<Seq<u8>>) -> bool {
    match image_path {
        Some(p) => p.len() > 0 && matches_any(p, entries),
        None => false,
    }
}

/// When the pre-create callback denies an open: only a request from
/// outside the kernel, carrying the delete-on-close option, from a
/// matching process.
pub open spec fn pre_create_denies(
    entries: Seq<Seq<u8>>,
    requestor_is_kernel: bool,
    create_options: u32,
    image_path: Option<Seq<u8>>,
) -> bool {
    &&& !requestor_is_kernel
    &&& create_options & FILE_DELETE_ON_CLOSE != 0
    &&& denies(entries, image_path)
}

/// When the pre-set-information callback denies a request: only a
/// set-disposition class (plain or extended) whose payload sets the
/// delete flag, from a matching process.
pub open spec fn pre_set_information_denies(
    entries: Seq<Seq<u8>>,
    info_class: u32,
    delete_file: u8,
    image_path: Option<Seq<u8>>,
) -> bool {
    &&& (info_class == FILE_DISPOSITION_INFORMATION || info_class == FILE_DISPOSITION_INFORMATION_EX)
    &&& delete_file != 0
    &&& denies(entries, image_path)
}

/// The pre-create verdict.  A request from the kernel's own context is
/// trusted and passes unconditionally; one without the delete-on-close
/// option carries no delete intent; otherwise the decision falls to the
/// registry, failing open when no image path could be resolved.
pub fn pre_create(
    registry: &ProtectedNameRegistry,
    requestor_is_kernel: bool,
    create_options: u32,
    image_path: Option<&Vec<u8>>,
) -> (v: PreopVerdict)
    ensures
        (v == PreopVerdict::CompleteAccessDenied) == pre_create_denies(
            registry@,
            requestor_is_kernel,
            create_options,
            path_view(image_path),
        ),
{
    if requestor_is_kernel {
        return PreopVerdict::PassThrough;
    }
    if create_options & FILE_DELETE_ON_CLOSE == 0 {
        return PreopVerdict::PassThrough;
    }
    match image_path {
        None => PreopVerdict::PassThrough,
        Some(p) => {
            if registry.is_delete_allowed(p) {
                PreopVerdict::PassThrough
            } else {
                PreopVerdict::CompleteAccessDenied
            }
        },
    }
}

/// The pre-set-information verdict.  Information classes other than the
/// two set-disposition ones pass untouched, as does a disposition payload
/// whose delete flag is clear; otherwise the decision falls to the
/// registry, failing open when the owning process's identity could not be
/// resolved.
pub fn pre_set_information(
    registry: &ProtectedNameRegistry,
    info_class: u32,
    delete_file: u8,
    image_path: Option<&Vec<u8>>,
) -> (v: PreopVerdict)
    ensures
        (v == PreopVerdict::CompleteAccessDenied) == pre_set_information_denies(
            registry@,
            info_class,
            delete_file,
            path_view(image_path),
        ),
{
    if info_class != FILE_DISPOSITION_INFORMATION && info_class != FILE_DISPOSITION_INFORMATION_EX {
        return PreopVerdict::PassThrough;
    }
    if delete_file == 0 {
        return PreopVerdict::PassThrough;
    }
    match image_path {
        None => PreopVerdict::PassThrough,
        Some(p) => {
            if registry.is_delete_allowed(p) {
                PreopVerdict::PassThrough
            } else {
                PreopVerdict::CompleteAccessDenied
            }
        },
    }
}

} // verus!
