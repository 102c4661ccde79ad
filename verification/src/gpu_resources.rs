//! What the host keeps about the presentation surface: the size of the
//! window and the size the surface is configured for.

use vstd::prelude::*;

verus! {

/// Number of frames that may be in flight between recording and display.
pub const FRAME_LATENCY: u32 = 2;

/// A format that a presentation surface offers, as far as the choice among
/// them asks.
#[derive(Clone, Copy, Debug, PartialEq, Eq, Structural)]
pub enum SurfaceFormat {
    Bgra8UnormSrgb,
    Rgba8UnormSrgb,
    Other,
}

impl SurfaceFormat {
    /// Whether this is one of the two formats that are taken before any
    /// other.
    pub open spec fn preferred(self) -> bool {
        self == SurfaceFormat::Bgra8UnormSrgb || self == SurfaceFormat::Rgba8UnormSrgb
    }

    /// Whether this is one of the two formats that are taken before any
    /// other.
    pub fn is_preferred(&self) -> (yes: bool)
        ensures
            yes == self.preferred(),
    {
        match self {
            SurfaceFormat::Bgra8UnormSrgb => true,
            SurfaceFormat::Rgba8UnormSrgb => true,
            SurfaceFormat::Other => false,
        }
    }
}

/// Why the surface handed out no image.
#[derive(Clone, Copy, Debug, PartialEq, Eq, Structural)]
pub enum SurfaceError {
    /// The wait for an image took too long.
    Timeout,
    /// The surface has changed under its configuration.
    Outdated,
    /// The surface was lost and has to be made anew.
    Lost,
    /// No memory is left for another image.
    OutOfMemory,
    /// A failure that the device reports elsewhere.
    Other,
}

/// How an attempt to acquire the next presentable image ended.
#[derive(Clone, Copy, Debug, PartialEq, Eq, Structural)]
pub enum SurfaceStatus {
    /// An image was acquired and a recording context stands ready.
    Ready,
    /// No image for now; a later attempt may succeed.
    Recoverable,
    /// No image, and none to be had.
    Fatal,
}

impl SurfaceStatus {
    /// The status that a failed attempt leaves: fatal where memory has run
    /// out, recoverable in every other case.
    pub open spec fn of_error(error: SurfaceError) -> SurfaceStatus {
        if error == SurfaceError::OutOfMemory {
            SurfaceStatus::Fatal
        } else {
            SurfaceStatus::Recoverable
        }
    }

    /// The status of an attempt: ready where it succeeded, and what the
    /// failure leaves where it did not.
    pub open spec fn of(attempt: Result<(), SurfaceError>) -> SurfaceStatus {
        match attempt {
            Ok(_) => SurfaceStatus::Ready,
            Err(error) => Self::of_error(error),
        }
    }

    /// Classifies the end of an attempt to acquire an image.
    pub fn from_attempt(attempt: Result<(), SurfaceError>) -> (status: SurfaceStatus)
        ensures
            status == Self::of(attempt),
    {
        match attempt {
            Ok(_) => SurfaceStatus::Ready,
            Err(SurfaceError::OutOfMemory) => SurfaceStatus::Fatal,
            Err(_) => SurfaceStatus::Recoverable,
        }
    }
}

/// Picks the format to configure the surface with, by its index in
/// `formats`: the first preferred format, or the first format of all where
/// none is preferred. There is nothing to pick from an empty list.
pub fn preferred_format(formats: &Vec<SurfaceFormat>) -> (choice: Option<usize>)
    ensures
        choice.is_some() <==> formats@.len() > 0,
        choice matches Some(index) ==> {
            &&& index < formats@.len()
            &&& forall|i: int| 0 <= i < index ==> !(#[trigger] formats@[i]).preferred()
            &&& formats@[index as int].preferred() || (index == 0 && forall|i: int|
                0 <= i < formats@.len() ==> !(#[trigger] formats@[i]).preferred())
        },
{
    if formats.len() == 0 {
        return None;
    }
    let mut index: usize = 0;
    while index < formats.len()
        invariant
            index <= formats@.len(),
            forall|i: int| 0 <= i < index ==> !(#[trigger] formats@[i]).preferred(),
        decreases formats@.len() - index,
    {
        if formats[index].is_preferred() {
            return Some(index);
        }
        index = index + 1;
    }
    Some(0)
}

/// The presentation surface as the host sees it.
///
/// The configured size follows the window's size, except that it is never
/// zero along either axis.
#[derive(Clone, Copy, Debug)]
pub struct GpuResource {
    size: (u32, u32),
    config: (u32, u32),
}

/// `extent`, or one where it is zero.
pub open spec fn at_least_one(extent: u32) -> u32 {
    if extent == 0 {
        1
    } else {
        extent
    }
}

impl GpuResource {
    /// Width and height of the window, in pixels.
    pub closed spec fn spec_size(self) -> (u32, u32) {
        self.size
    }

    /// Width and height that the surface is configured for, in pixels.
    pub closed spec fn spec_config(self) -> (u32, u32) {
        self.config
    }

    /// Validity: the surface is configured for at least one pixel along
    /// each axis.
    #[verifier::type_invariant]
    pub open spec fn wf(self) -> bool {
        self.spec_config().0 >= 1 && self.spec_config().1 >= 1
    }

    /// The surface of a window of the given size. It is configured for that
    /// size, with one pixel in place of none.
    pub fn new(width: u32, height: u32) -> (gpu: GpuResource)
        ensures
            gpu.spec_size() == (width, height),
            gpu.spec_config() == (at_least_one(width), at_least_one(height)),
            gpu.wf(),
    {
        let config_width: u32 = if width == 0 {
            1
        } else {
            width
        };
        let config_height: u32 = if height == 0 {
            1
        } else {
            height
        };
        GpuResource { size: (width, height), config: (config_width, config_height) }
    }

    /// Takes in a new size of the window. Where both extents are positive,
    /// they become the window's size and the configured size, and the
    /// surface is to be configured anew: the result is `true`. Where either
    /// is zero nothing changes and the result is `false`.
    pub fn resize(&mut self, width: u32, height: u32) -> (reconfigure: bool)
        ensures
            reconfigure == (width > 0 && height > 0),
            reconfigure ==> final(self).spec_size() == (width, height) && final(self).spec_config()
                == (width, height),
            !reconfigure ==> *final(self) == *old(self),
            final(self).wf(),
    {
        if width > 0 && height > 0 {
            *self = GpuResource { size: (width, height), config: (width, height) };
            true
        } else {
            proof {
                use_type_invariant(&*self);
            }
            false
        }
    }

    /// Width and height of the window, in pixels.
    pub fn size(&self) -> (size: (u32, u32))
        ensures
            size == self.spec_size(),
    {
        self.size
    }

    /// Width and height that the surface is configured for, both at least
    /// one pixel.
    pub fn config(&self) -> (config: (u32, u32))
        ensures
            config == self.spec_config(),
            config.0 >= 1,
            config.1 >= 1,
    {
        proof {
            use_type_invariant(self);
        }
        self.config
    }
}

} // verus!
