//! Swapchain policy and surface-sized state: which format and present
//! mode to pick, how many images to request, and when a new extent
//! forces the image chain and its framebuffers to be rebuilt.
//!
//! Formats, color spaces and present modes appear as the numeric codes
//! the shell assigns them; the policy only compares codes.

use vstd::prelude::*;

verus! {

/// The one surface format this renderer accepts: 8-bit BGRA with sRGB
/// encoding, paired with the sRGB non-linear color space. The codes are
/// the shell's; these two name the required pair.
pub const FORMAT_B8G8R8A8_SRGB: u32 = 50;

/// The color-space code paired with the required format.
pub const COLOR_SPACE_SRGB_NONLINEAR: u32 = 0;

/// Whether a reported `(format, color_space)` pair is the one the
/// renderer requires.
pub open spec fn spec_format_ok(f: (u32, u32)) -> bool {
    f.0 == FORMAT_B8G8R8A8_SRGB && f.1 == COLOR_SPACE_SRGB_NONLINEAR
}

/// Picks the required sRGB format out of the supported set: the first
/// matching pair, or `None` when the surface does not offer it — the
/// renderer then fails loudly rather than falling back to another format.
pub fn choose_format(formats: &Vec<(u32, u32)>) -> (r: Option<usize>)
    ensures
        r matches Some(i) ==> i < formats@.len() && spec_format_ok(formats@[i as int]) && forall|
            j: int,
        | 0 <= j < i ==> !spec_format_ok(#[trigger] formats@[j]),
        r is None ==> forall|j: int| 0 <= j < formats@.len() ==> !spec_format_ok(
            #[trigger] formats@[j],
        ),
{
    for i in 0..formats.len()
        invariant
            forall|j: int| 0 <= j < i ==> !spec_format_ok(#[trigger] formats@[j]),
    {
        let (f, cs) = formats[i];
        if f == FORMAT_B8G8R8A8_SRGB && cs == COLOR_SPACE_SRGB_NONLINEAR {
            return Some(i);
        }
    }
    Option::None
}

/// Whether a present-mode code occurs in the supported list.
pub open spec fn spec_mode_supported(supported: Seq<u32>, mode: u32) -> bool {
    exists|j: int| 0 <= j < supported.len() && supported[j] == mode
}

/// Picks the present mode: the first entry of the preference list that
/// the surface supports, or `None` when none is.
pub fn choose_present_mode(preferences: &Vec<u32>, supported: &Vec<u32>) -> (r: Option<u32>)
    ensures
        r matches Some(m) ==> exists|i: int|
            0 <= i < preferences@.len() && preferences@[i] == m && spec_mode_supported(
                supported@,
                m,
            ) && forall|j: int|
                0 <= j < i ==> !spec_mode_supported(supported@, #[trigger] preferences@[j]),
        r is None ==> forall|i: int|
            0 <= i < preferences@.len() ==> !spec_mode_supported(
                supported@,
                #[trigger] preferences@[i],
            ),
{
    for i in 0..preferences.len()
        invariant
            forall|j: int| 0 <= j < i ==> !spec_mode_supported(supported@, #[trigger] preferences@[j]),
    {
        let mode = preferences[i];
        let mut found = false;
        for k in 0..supported.len()
            invariant
                found == exists|j: int| 0 <= j < k && supported@[j] == mode,
        {
            if supported[k] == mode {
                found = true;
            }
        }
        if found {
            return Some(mode);
        }
    }
    Option::None
}

/// How many swapchain images to request: one more than the surface's
/// minimum so acquire never stalls, and at least three.
pub fn min_image_count(surface_min: u32) -> (r: u32)
    requires
        surface_min < u32::MAX,
    ensures
        r == (if surface_min + 1 >= 3 {
            (surface_min + 1) as u32
        } else {
            3u32
        }),
{
    let candidate = surface_min + 1;
    if candidate >= 3 {
        candidate
    } else {
        3
    }
}

/// The surface-sized state of the renderer: the current extent and a
/// generation counter that stands for the identity of the image chain
/// and the framebuffers built for it — rebuilding them is the only thing
/// that advances it.
#[derive(Clone, Copy, Debug, PartialEq, Eq, Structural)]
pub struct SwapchainManager {
    pub width: u32,
    pub height: u32,
    pub generation: u64,
}

/// What `recreate` leaves behind: untouched state when the extent is
/// unchanged, otherwise the new extent with the next generation of
/// framebuffers.
pub open spec fn spec_recreate(s: SwapchainManager, width: u32, height: u32) -> SwapchainManager {
    if s.width == width && s.height == height {
        s
    } else {
        SwapchainManager { width, height, generation: (s.generation + 1) as u64 }
    }
}

impl SwapchainManager {
    /// The initial chain for a surface of the given extent.
    pub fn create(width: u32, height: u32) -> (s: SwapchainManager)
        ensures
            s == (SwapchainManager { width, height, generation: 0 }),
    {
        SwapchainManager { width, height, generation: 0 }
    }

    /// Rebuilds the image chain and its framebuffers for a new extent,
    /// and does nothing at all when the extent already matches: the
    /// framebuffer generation — their identity — is then unchanged.
    /// Returns whether a rebuild happened.
    pub fn recreate(&mut self, width: u32, height: u32) -> (rebuilt: bool)
        requires
            old(self).generation < u64::MAX,
        ensures
            *final(self) == spec_recreate(*old(self), width, height),
            rebuilt == !(old(self).width == width && old(self).height == height),
    {
        if self.width == width && self.height == height {
            return false;
        }
        self.width = width;
        self.height = height;
        self.generation = self.generation + 1;
        true
    }
}

/// Asking twice for the same extent rebuilds at most once: the second
/// call finds the extent in place and leaves the state — the framebuffer
/// generation included — exactly as the first call left it.
pub proof fn lemma_recreate_idempotent(s: SwapchainManager, width: u32, height: u32)
    ensures
        spec_recreate(spec_recreate(s, width, height), width, height) == spec_recreate(
            s,
            width,
            height,
        ),
{
}

} // verus!
