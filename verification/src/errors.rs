use vstd::prelude::*;

verus! {

/// The failures the shell distinguishes.
///
/// `SurfaceLost` is transient: the caller resizes to the last known size
/// and retries once. `DeviceCreationFailed` is fatal at startup: no GPU
/// adapter met the requirements. `DegenerateTransform` marks a transform
/// whose scale reached zero; the zoom guard keeps it from ever arising.
/// `TextureCacheMiss` marks a primitive that referenced a texture the
/// cache does not hold: a texture-lifecycle bug in the frame's producer,
/// and fatal.
#[derive(PartialEq, Eq, Structural, Clone, Copy, Debug)]
pub enum ShellError {
    SurfaceLost,
    DeviceCreationFailed,
    DegenerateTransform,
    TextureCacheMiss,
}

impl ShellError {
    /// A short description, one per variant.
    pub fn describe(&self) -> (r: &'static str)
    {
        match self {
            ShellError::SurfaceLost => "surface lost; reconfigure and retry",
            ShellError::DeviceCreationFailed => "no suitable GPU device",
            ShellError::DegenerateTransform => "viewport transform degenerated",
            ShellError::TextureCacheMiss => "primitive referenced a missing texture",
        }
    }
}

} // verus!
