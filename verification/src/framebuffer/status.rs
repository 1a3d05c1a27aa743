//! What the driver's completeness check means for a new framebuffer.

use vstd::prelude::*;
use crate::constants::{
    FRAMEBUFFER_COMPLETE, FRAMEBUFFER_INCOMPLETE_ATTACHMENT, FRAMEBUFFER_INCOMPLETE_DRAW_BUFFER,
    FRAMEBUFFER_INCOMPLETE_LAYER_TARGETS, FRAMEBUFFER_INCOMPLETE_MISSING_ATTACHMENT,
    FRAMEBUFFER_INCOMPLETE_MULTISAMPLE, FRAMEBUFFER_INCOMPLETE_READ_BUFFER,
    FRAMEBUFFER_UNDEFINED,
};
use crate::render_error::{RenderError, RenderErrorView};

verus! {

/// What to make of a framebuffer whose attachment points the driver calls
/// incomplete. Some platforms cannot use such a framebuffer; on others it
/// works all the same.
#[derive(Debug, Clone, Copy, PartialEq, Eq, Structural)]
pub enum IncompleteAttachmentPolicy {
    /// Construction fails.
    Fatal,
    /// Construction goes on, and the framebuffer remembers the status.
    Tolerated,
}

/// How a framebuffer passed the completeness check.
#[derive(Debug, Clone, Copy, PartialEq, Eq, Structural)]
pub enum Completeness {
    /// The driver called it complete.
    Complete,
    /// The driver called its attachment points incomplete, and the policy
    /// tolerated that. A backend may want to log a warning.
    IncompleteAttachment,
}

/// The verdict on a status: how the framebuffer passed, or the text of the
/// error.
///
/// Only a complete framebuffer passes, and one with incomplete attachment
/// points where that is tolerated. Every other status that OpenGL defines
/// has a text of its own, and any further value shares one.
pub open spec fn status_verdict(status: u32, policy: IncompleteAttachmentPolicy) -> Result<
    Completeness,
    Seq<char>,
> {
    if status == FRAMEBUFFER_COMPLETE {
        Ok(Completeness::Complete)
    } else if status == FRAMEBUFFER_UNDEFINED {
        Err("Framebuffer undefined!"@)
    } else if status == FRAMEBUFFER_INCOMPLETE_ATTACHMENT {
        match policy {
            IncompleteAttachmentPolicy::Fatal => Err(
                "Incomplete framebuffer attachment points! This is fatal on Windows."@,
            ),
            IncompleteAttachmentPolicy::Tolerated => Ok(Completeness::IncompleteAttachment),
        }
    } else if status == FRAMEBUFFER_INCOMPLETE_MISSING_ATTACHMENT {
        Err("No images are attached to the framebuffer!"@)
    } else if status == FRAMEBUFFER_INCOMPLETE_DRAW_BUFFER {
        Err("Incomplete draw buffer!"@)
    } else if status == FRAMEBUFFER_INCOMPLETE_READ_BUFFER {
        Err("Incomplete read buffer!"@)
    } else if status == FRAMEBUFFER_INCOMPLETE_MULTISAMPLE {
        Err("Unsupported internal formats for attached framebuffer images!"@)
    } else if status == FRAMEBUFFER_INCOMPLETE_LAYER_TARGETS {
        Err("Multisample textures are invalid!"@)
    } else {
        Err("Unknown error with framebuffer creation!"@)
    }
}

/// Judges the status that the driver reported for a new framebuffer.
pub fn check_status(status: u32, policy: IncompleteAttachmentPolicy) -> (result: Result<
    Completeness,
    RenderError,
>)
    ensures
        match result {
            Ok(completeness) => status_verdict(status, policy) == Ok::<Completeness, Seq<char>>(
                completeness,
            ),
            Err(error) => status_verdict(status, policy) matches Err(text) && error@ == (
            RenderErrorView::BufferError { error: text }),
        },
{
    if status == FRAMEBUFFER_COMPLETE {
        Ok(Completeness::Complete)
    } else if status == FRAMEBUFFER_UNDEFINED {
        Err(RenderError::buffer("Framebuffer undefined!"))
    } else if status == FRAMEBUFFER_INCOMPLETE_ATTACHMENT {
        match policy {
            IncompleteAttachmentPolicy::Fatal => Err(
                RenderError::buffer(
                    "Incomplete framebuffer attachment points! This is fatal on Windows.",
                ),
            ),
            IncompleteAttachmentPolicy::Tolerated => Ok(Completeness::IncompleteAttachment),
        }
    } else if status == FRAMEBUFFER_INCOMPLETE_MISSING_ATTACHMENT {
        Err(RenderError::buffer("No images are attached to the framebuffer!"))
    } else if status == FRAMEBUFFER_INCOMPLETE_DRAW_BUFFER {
        Err(RenderError::buffer("Incomplete draw buffer!"))
    } else if status == FRAMEBUFFER_INCOMPLETE_READ_BUFFER {
        Err(RenderError::buffer("Incomplete read buffer!"))
    } else if status == FRAMEBUFFER_INCOMPLETE_MULTISAMPLE {
        Err(RenderError::buffer("Unsupported internal formats for attached framebuffer images!"))
    } else if status == FRAMEBUFFER_INCOMPLETE_LAYER_TARGETS {
        Err(RenderError::buffer("Multisample textures are invalid!"))
    } else {
        Err(RenderError::buffer("Unknown error with framebuffer creation!"))
    }
}

/// The class of a status: one for each status that OpenGL defines, and one
/// that all other values share.
pub open spec fn status_class(status: u32) -> int {
    if status == FRAMEBUFFER_COMPLETE {
        0
    } else if status == FRAMEBUFFER_UNDEFINED {
        1
    } else if status == FRAMEBUFFER_INCOMPLETE_ATTACHMENT {
        2
    } else if status == FRAMEBUFFER_INCOMPLETE_MISSING_ATTACHMENT {
        3
    } else if status == FRAMEBUFFER_INCOMPLETE_DRAW_BUFFER {
        4
    } else if status == FRAMEBUFFER_INCOMPLETE_READ_BUFFER {
        5
    } else if status == FRAMEBUFFER_INCOMPLETE_MULTISAMPLE {
        6
    } else if status == FRAMEBUFFER_INCOMPLETE_LAYER_TARGETS {
        7
    } else {
        8
    }
}

/// Every kind of incompleteness has an error of its own: two statuses that
/// both fail, and are not of one class, fail with different texts.
pub proof fn lemma_each_status_its_own_error(
    first: u32,
    second: u32,
    policy: IncompleteAttachmentPolicy,
)
    requires
        status_class(first) != status_class(second),
        status_verdict(first, policy) is Err,
        status_verdict(second, policy) is Err,
    ensures
        status_verdict(first, policy) != status_verdict(second, policy),
{
    reveal_strlit("Framebuffer undefined!");
    reveal_strlit("Incomplete framebuffer attachment points! This is fatal on Windows.");
    reveal_strlit("No images are attached to the framebuffer!");
    reveal_strlit("Incomplete draw buffer!");
    reveal_strlit("Incomplete read buffer!");
    reveal_strlit("Unsupported internal formats for attached framebuffer images!");
    reveal_strlit("Multisample textures are invalid!");
    reveal_strlit("Unknown error with framebuffer creation!");
    let a = status_verdict(first, policy)->Err_0;
    let b = status_verdict(second, policy)->Err_0;
    if a.len() == b.len() {
        assert("Incomplete draw buffer!"@[11] == 'd');
        assert("Incomplete read buffer!"@[11] == 'r');
        assert(a[11] != b[11]);
    }
}

/// The error for a framebuffer that the driver did not create.
pub open spec fn framebuffer_refused() -> RenderErrorView {
    RenderErrorView::BufferError { error: "Failed to create framebuffer!"@ }
}

/// The error for a colour texture that the driver did not create.
pub open spec fn texture_refused() -> RenderErrorView {
    RenderErrorView::BufferError { error: "Failed to create texture for framebuffer!"@ }
}

/// The error for a depth and stencil texture that the driver did not create.
pub open spec fn depth_refused() -> RenderErrorView {
    RenderErrorView::BufferError {
        error: "Failed to create depth and stencil buffer for framebuffer!"@,
    }
}

} // verus!
