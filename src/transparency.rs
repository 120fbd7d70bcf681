//! The platform transparency hook, applied once right after the overlay
//! window is built and before it is shown.
//!
//! Where the platform has native support the window is made non-opaque with
//! a clear background and no shadow, raised to the floating level, and its
//! content view told not to draw a background. Elsewhere the hook does
//! nothing and any transparency comes from the content. The hook never fails
//! the creation of the window.
use vstd::prelude::*;

verus! {

/// The window level just above normal windows.
pub const FLOATING_WINDOW_LEVEL: i64 = 3;

/// One native call of the hook.
#[derive(Clone, Copy, Debug, PartialEq, Eq, Structural)]
pub enum NativeStep {
    SetOpaque(bool),
    ClearBackgroundColor,
    SetHasShadow(bool),
    SetLevel(i64),
    /// Stop the first subview of the content view (the web view) from
    /// drawing its background.
    ClearContentBackground,
}

pub open spec fn transparency_spec(native_support: bool, content_subviews: usize) -> Seq<NativeStep> {
    if !native_support {
        Seq::empty()
    } else {
        seq![
            NativeStep::SetOpaque(false),
            NativeStep::ClearBackgroundColor,
            NativeStep::SetHasShadow(false),
            NativeStep::SetLevel(FLOATING_WINDOW_LEVEL),
        ] + if content_subviews > 0 {
            seq![NativeStep::ClearContentBackground]
        } else {
            Seq::empty()
        }
    }
}

/// The native calls that make the overlay transparent, given whether the
/// platform supports them and how many subviews its content view has.
pub fn transparency_steps(native_support: bool, content_subviews: usize) -> (r: Vec<NativeStep>)
    ensures
        r@ == transparency_spec(native_support, content_subviews),
{
    let mut v: Vec<NativeStep> = Vec::new();
    if native_support {
        v.push(NativeStep::SetOpaque(false));
        v.push(NativeStep::ClearBackgroundColor);
        v.push(NativeStep::SetHasShadow(false));
        v.push(NativeStep::SetLevel(FLOATING_WINDOW_LEVEL));
        if content_subviews > 0 {
            v.push(NativeStep::ClearContentBackground);
        }
    }
    assert(v@ =~= transparency_spec(native_support, content_subviews));
    v
}

} // verus!
