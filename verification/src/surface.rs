use vstd::prelude::*;

verus! {

/// Why the presentable surface image could not be acquired for a frame.
#[derive(Clone, Copy, Debug, PartialEq, Eq, Structural)]
pub enum SurfaceFault {
    /// The image did not become available in time.
    Timeout,
    /// The surface no longer matches the window, which has changed under it.
    Outdated,
    /// The surface was lost and has to be set up again.
    Lost,
    /// The device has no memory left for a frame.
    OutOfMemory,
}

/// What the orchestrator does about a surface fault. Faults are sorted into these
/// classes where they arrive; nothing behind that point sees a backend error.
#[derive(Clone, Copy, Debug, PartialEq, Eq, Structural)]
pub enum Recovery {
    /// Configure the surface again at the current window size and try on the next tick.
    Reconfigure,
    /// Give up this frame's presentation and go on.
    SkipFrame,
    /// Leave the loop; the process ends with a failure status.
    Fatal,
}

impl SurfaceFault {
    /// The class of a fault: staleness is mended by configuring again, a timeout
    /// costs one frame, loss of the device's memory ends the run.
    pub open spec fn spec_recovery(self) -> Recovery {
        match self {
            SurfaceFault::Lost | SurfaceFault::Outdated => Recovery::Reconfigure,
            SurfaceFault::Timeout => Recovery::SkipFrame,
            SurfaceFault::OutOfMemory => Recovery::Fatal,
        }
    }

    /// Sorts the fault into its class.
    pub fn recovery(self) -> (class: Recovery)
        ensures
            class == self.spec_recovery(),
    {
        match self {
            SurfaceFault::Lost => Recovery::Reconfigure,
            SurfaceFault::Outdated => Recovery::Reconfigure,
            SurfaceFault::Timeout => Recovery::SkipFrame,
            SurfaceFault::OutOfMemory => Recovery::Fatal,
        }
    }
}

/// The texture formats of `wgpu`, carried through as they are.
#[verifier::external_type_specification]
#[verifier::external_body]
pub struct ExTextureFormat(wgpu::TextureFormat);

/// What `wgpu::TextureFormat::is_srgb` answers for `format`.
pub uninterp spec fn is_srgb_format(format: wgpu::TextureFormat) -> bool;

/// Calls `wgpu::TextureFormat::is_srgb`, which compares the format with the same
/// format stripped of its sRGB suffix. The answer depends on the format alone; it
/// goes by the name [`is_srgb_format`], and nothing more is claimed of it.
#[verifier::external_body]
fn format_is_srgb(format: &wgpu::TextureFormat) -> (srgb: bool)
    ensures
        srgb == is_srgb_format(*format),
{
    format.is_srgb()
}

/// Picks, among the formats that a surface supports, the one to configure it
/// with: the first sRGB format, or the first format of all where none is sRGB.
/// Returns its index. The list must hold a format.
pub fn preferred_format(formats: &Vec<wgpu::TextureFormat>) -> (index: usize)
    requires
        formats.len() > 0,
    ensures
        index < formats.len(),
        forall|i: int| 0 <= i < index ==> !is_srgb_format(formats[i]),
        is_srgb_format(formats[index as int]) || (index == 0 && forall|i: int|
            0 <= i < formats.len() ==> !is_srgb_format(formats[i])),
{
    let mut index: usize = 0;
    while index < formats.len()
        invariant
            index <= formats.len(),
            forall|i: int| 0 <= i < index ==> !is_srgb_format(formats[i]),
        decreases formats.len() - index,
    {
        if format_is_srgb(&formats[index]) {
            return index;
        }
        index = index + 1;
    }
    0
}

} // verus!
