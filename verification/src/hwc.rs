//! The hardware-compositor session: API-version negotiation, display
//! attribute queries, display power control, and the per-frame layer lists
//! submitted through the compositor's `prepare`/`set` entry points.

use vstd::prelude::*;
use crate::fence::{Fence, NO_FENCE};

verus! {

pub const HWC_DISPLAY_NO_ATTRIBUTE: u32 = 0;
pub const HWC_DISPLAY_VSYNC_PERIOD: u32 = 1;
pub const HWC_DISPLAY_WIDTH: u32 = 2;
pub const HWC_DISPLAY_HEIGHT: u32 = 3;
pub const HWC_DISPLAY_DPI_X: u32 = 4;
pub const HWC_DISPLAY_DPI_Y: u32 = 5;

pub const HWC_POWER_MODE_OFF: i32 = 0;
pub const HWC_POWER_MODE_DOZE: i32 = 1;
pub const HWC_POWER_MODE_NORMAL: i32 = 2;
pub const HWC_POWER_MODE_DOZE_SUSPEND: i32 = 3;

/// In the 1.3 revision the power call reaches the device's legacy blank
/// entry point: 0 unblanks the display, 1 blanks it.
pub const HWC_BLANK_UNBLANK: i32 = 0;
pub const HWC_BLANK_BLANK: i32 = 1;

pub const HWC_FRAMEBUFFER: i32 = 0;
pub const HWC_OVERLAY: i32 = 1;
pub const HWC_BACKGROUND: i32 = 2;
pub const HWC_FRAMEBUFFER_TARGET: i32 = 3;
pub const HWC_BLIT: i32 = 4;

pub const HWC_SKIP_LAYER: u32 = 1;
pub const HWC_BLENDING_NONE: i32 = 0x0100;
pub const HWC_GEOMETRY_CHANGED: u32 = 1;

/// A solid color, as background color layers carry it in the composition
/// protocol.
#[allow(non_camel_case_types)]
#[derive(Clone, Copy, PartialEq, Eq, Structural, Debug)]
pub struct hwc_color {
    pub r: u8,
    pub g: u8,
    pub b: u8,
    pub a: u8,
}

/// An integer rectangle, given by its edges as the compositor expects them.
#[allow(non_camel_case_types)]
#[derive(Clone, Copy, PartialEq, Eq, Structural, Debug)]
pub struct hwc_rect {
    pub left: i32,
    pub top: i32,
    pub right: i32,
    pub bottom: i32,
}

/// The packed version code `(maj.min, revision 1)` that a compositor device
/// reports.
pub open spec fn api_version_code(maj: u32, min: u32) -> u32 {
    ((maj & 0xff) << 24) | ((min & 0xff) << 16) | 1u32
}

/// The exact version words of the two supported revisions, pinned so that
/// callers can tell them apart without bit-level reasoning of their own.
pub proof fn lemma_api_version_codes()
    ensures
        api_version_code(1, 3) == 0x0103_0001u32,
        api_version_code(1, 4) == 0x0104_0001u32,
{
    assert(((1u32 & 0xff) << 24) | ((3u32 & 0xff) << 16) | 1u32 == 0x0103_0001u32) by (bit_vector);
    assert(((1u32 & 0xff) << 24) | ((4u32 & 0xff) << 16) | 1u32 == 0x0104_0001u32) by (bit_vector);
}

/// The two compositor API revisions this session knows how to drive.
#[derive(Clone, Copy, PartialEq, Eq, Structural, Debug)]
pub enum HwcApiVersion {
    Hwc1_3,
    Hwc1_4,
}

impl HwcApiVersion {
    /// Packs a major/minor pair the way the hardware layer encodes device
    /// API versions.
    pub fn hwc_api_version(maj: u32, min: u32) -> (r: u32)
        ensures
            r == api_version_code(maj, min),
    {
        ((maj & 0xff) << 24) | ((min & 0xff) << 16) | 1
    }

    /// Which revisions a raw device version code stands for; `None` for every
    /// code outside the two supported ones.
    pub open spec fn spec_from(version: u32) -> Option<HwcApiVersion> {
        if version == api_version_code(1, 3) {
            Some(HwcApiVersion::Hwc1_3)
        } else if version == api_version_code(1, 4) {
            Some(HwcApiVersion::Hwc1_4)
        } else {
            None
        }
    }

    pub fn from(version: u32) -> (r: Option<HwcApiVersion>)
        ensures
            r == HwcApiVersion::spec_from(version),
    {
        if HwcApiVersion::hwc_api_version(1, 3) == version {
            Some(HwcApiVersion::Hwc1_3)
        } else if HwcApiVersion::hwc_api_version(1, 4) == version {
            Some(HwcApiVersion::Hwc1_4)
        } else {
            None
        }
    }
}

/// One layer of a display list, with every value the compositor reads given
/// as plain data: the buffer handle (0 when the layer references none) and
/// the fences as raw handles.
#[allow(non_camel_case_types)]
#[derive(Clone, Copy, PartialEq, Eq, Debug)]
pub struct hwc_layer {
    pub composition_type: i32,
    pub hints: u32,
    pub flags: u32,
    pub handle: u64,
    pub transform: u32,
    pub blending: i32,
    pub source_crop: hwc_rect,
    pub display_frame: hwc_rect,
    pub visible_region_screen: Option<hwc_rect>,
    pub acquire_fence_fd: i32,
    pub release_fence_fd: i32,
    pub plane_alpha: u8,
}

/// A per-frame display list: exactly two layers, a whole-frame retire fence
/// the compositor fills in on `set`, and the geometry-changed flag.
#[allow(non_camel_case_types)]
#[derive(Clone, Copy, PartialEq, Eq, Debug)]
pub struct hwc_display_contents {
    pub retire_fence_fd: i32,
    pub flags: u32,
    pub num_hw_layers: usize,
    pub hw_layers: (hwc_layer, hwc_layer),
}

/// The rectangle covering a whole `width` by `height` frame.
pub open spec fn full_frame(width: i32, height: i32) -> hwc_rect {
    hwc_rect { left: 0, top: 0, right: width, bottom: height }
}

/// Layer 0 of every frame: an opaque placeholder covering the full frame,
/// marked to be skipped by hardware composition.
pub open spec fn spec_skip_layer(frame: hwc_rect) -> hwc_layer {
    hwc_layer {
        composition_type: HWC_FRAMEBUFFER,
        hints: 0,
        flags: HWC_SKIP_LAYER,
        handle: 0,
        transform: 0,
        blending: 0,
        source_crop: hwc_rect { left: 0, top: 0, right: 0, bottom: 0 },
        display_frame: frame,
        visible_region_screen: None,
        acquire_fence_fd: NO_FENCE,
        release_fence_fd: NO_FENCE,
        plane_alpha: 0xff,
    }
}

/// Layer 1 of every frame: the framebuffer-target layer that references the
/// queued buffer's handle, with full-frame source crop and destination, the
/// producer's acquire fence, and a release-fence slot for the compositor to
/// fill.
pub open spec fn spec_target_layer(
    width: i32,
    height: i32,
    handle: u64,
    acquire_fence_fd: i32,
) -> hwc_layer {
    hwc_layer {
        composition_type: HWC_FRAMEBUFFER_TARGET,
        hints: 0,
        flags: 0,
        handle,
        transform: 0,
        blending: HWC_BLENDING_NONE,
        source_crop: full_frame(width, height),
        display_frame: full_frame(width, height),
        visible_region_screen: Some(full_frame(width, height)),
        acquire_fence_fd,
        release_fence_fd: NO_FENCE,
        plane_alpha: 0xff,
    }
}

/// The complete two-layer display list submitted for one frame.
pub open spec fn spec_display_contents(
    width: i32,
    height: i32,
    handle: u64,
    acquire_fence_fd: i32,
) -> hwc_display_contents {
    hwc_display_contents {
        retire_fence_fd: NO_FENCE,
        flags: HWC_GEOMETRY_CHANGED,
        num_hw_layers: 2,
        hw_layers: (
            spec_skip_layer(full_frame(width, height)),
            spec_target_layer(width, height, handle, acquire_fence_fd),
        ),
    }
}

/// Builds the display list for one just-queued buffer. The embedder passes
/// the list to the compositor's `prepare` and then `set` entry points.
pub fn build_display_contents(width: i32, height: i32, handle: u64, acquire_fence_fd: i32) -> (r:
    hwc_display_contents)
    ensures
        r == spec_display_contents(width, height, handle, acquire_fence_fd),
{
    let frame = hwc_rect { left: 0, top: 0, right: width, bottom: height };
    hwc_display_contents {
        retire_fence_fd: NO_FENCE,
        flags: HWC_GEOMETRY_CHANGED,
        num_hw_layers: 2,
        hw_layers: (
            hwc_layer {
                composition_type: HWC_FRAMEBUFFER,
                hints: 0,
                flags: HWC_SKIP_LAYER,
                handle: 0,
                transform: 0,
                blending: 0,
                source_crop: hwc_rect { left: 0, top: 0, right: 0, bottom: 0 },
                display_frame: frame,
                visible_region_screen: None,
                acquire_fence_fd: NO_FENCE,
                release_fence_fd: NO_FENCE,
                plane_alpha: 0xff,
            },
            hwc_layer {
                composition_type: HWC_FRAMEBUFFER_TARGET,
                hints: 0,
                flags: 0,
                handle,
                transform: 0,
                blending: HWC_BLENDING_NONE,
                source_crop: frame,
                display_frame: frame,
                visible_region_screen: Some(frame),
                acquire_fence_fd,
                release_fence_fd: NO_FENCE,
                plane_alpha: 0xff,
            },
        ),
    }
}

/// The fences a display list carries after the compositor's `set` call: the
/// whole-frame retire fence, which the embedder closes at once, and layer
/// 1's release fence, which goes back into the buffer's slot for the next
/// dequeue.
#[derive(Debug)]
pub struct FrameFences {
    pub retire: Fence,
    pub release: Fence,
}

/// Reads the two fences out of a display list that came back from `set`.
pub fn collect_frame_fences(contents: &hwc_display_contents) -> (r: FrameFences)
    ensures
        r.retire@ == contents.retire_fence_fd as int,
        r.release@ == contents.hw_layers.1.release_fence_fd as int,
{
    FrameFences {
        retire: Fence::from_raw(contents.retire_fence_fd),
        release: Fence::from_raw(contents.hw_layers.1.release_fence_fd),
    }
}

/// Why a compositor session could not be opened.
#[derive(Clone, Copy, PartialEq, Eq, Structural, Debug)]
pub enum HwcError {
    DeviceUnavailable,
    UnsupportedVersion,
}

/// What the embedder must do to carry out one display power change: first
/// disable the system's autosuspend inhibitor if asked, then hand `mode` to
/// the compositor's power entry point.
#[derive(Clone, Copy, PartialEq, Eq, Structural, Debug)]
pub struct PowerRequest {
    pub disable_autosuspend: bool,
    pub mode: i32,
}

/// An opened compositor session: the negotiated API revision and the display
/// power state it has requested. A value of this type exists only after a
/// successful open.
#[derive(Debug)]
pub struct HwcDevice {
    version: HwcApiVersion,
    powered: bool,
}

impl HwcDevice {
    pub closed spec fn spec_version(self) -> HwcApiVersion {
        self.version
    }

    pub closed spec fn spec_powered(self) -> bool {
        self.powered
    }

    /// Opens a session over a compositor device the embedder found (or did
    /// not). `raw_version` is the version word the device reports; it must
    /// name one of the two supported revisions.
    pub fn new(device_available: bool, raw_version: u32) -> (r: Result<HwcDevice, HwcError>)
        ensures
            !device_available ==> r == Err::<HwcDevice, HwcError>(HwcError::DeviceUnavailable),
            device_available ==> match HwcApiVersion::spec_from(raw_version) {
                Some(v) => {
                    &&& r matches Ok(d)
                    &&& d.spec_version() == v
                    &&& !d.spec_powered()
                },
                None => r == Err::<HwcDevice, HwcError>(HwcError::UnsupportedVersion),
            },
    {
        if !device_available {
            return Err(HwcError::DeviceUnavailable);
        }
        match HwcApiVersion::from(raw_version) {
            None => Err(HwcError::UnsupportedVersion),
            Some(version) => Ok(HwcDevice { version, powered: false }),
        }
    }

    pub fn api_version(&self) -> (v: HwcApiVersion)
        ensures
            v == self.spec_version(),
    {
        self.version
    }

    pub fn is_powered(&self) -> (b: bool)
        ensures
            b == self.spec_powered(),
    {
        self.powered
    }

    /// The attribute codes to query for the display's width and height, in
    /// the order the answer values arrive.
    pub fn dimension_attributes(&self) -> (r: Vec<u32>)
        ensures
            r@ == seq![HWC_DISPLAY_WIDTH, HWC_DISPLAY_HEIGHT, HWC_DISPLAY_NO_ATTRIBUTE],
    {
        let mut v: Vec<u32> = Vec::new();
        v.push(HWC_DISPLAY_WIDTH);
        v.push(HWC_DISPLAY_HEIGHT);
        v.push(HWC_DISPLAY_NO_ATTRIBUTE);
        proof {
            assert(v@ =~= seq![HWC_DISPLAY_WIDTH, HWC_DISPLAY_HEIGHT, HWC_DISPLAY_NO_ATTRIBUTE]);
        }
        v
    }

    /// As `dimension_attributes`, with the horizontal DPI added.
    pub fn dimension_dpi_attributes(&self) -> (r: Vec<u32>)
        ensures
            r@ == seq![
                HWC_DISPLAY_WIDTH,
                HWC_DISPLAY_HEIGHT,
                HWC_DISPLAY_DPI_X,
                HWC_DISPLAY_NO_ATTRIBUTE,
            ],
    {
        let mut v: Vec<u32> = Vec::new();
        v.push(HWC_DISPLAY_WIDTH);
        v.push(HWC_DISPLAY_HEIGHT);
        v.push(HWC_DISPLAY_DPI_X);
        v.push(HWC_DISPLAY_NO_ATTRIBUTE);
        proof {
            assert(v@ =~= seq![
                HWC_DISPLAY_WIDTH,
                HWC_DISPLAY_HEIGHT,
                HWC_DISPLAY_DPI_X,
                HWC_DISPLAY_NO_ATTRIBUTE,
            ]);
        }
        v
    }

    /// Reads the display's width and height out of the values the device
    /// returned for `dimension_attributes`. The device's status code is
    /// deliberately not consulted: some hardware modules report failure
    /// while still returning valid values, so callers must tolerate zeroed
    /// dimensions instead.
    pub fn get_dimensions(&self, values: &Vec<i32>) -> (r: (i32, i32))
        requires
            values@.len() >= 2,
        ensures
            r.0 == values@[0],
            r.1 == values@[1],
    {
        (values[0], values[1])
    }

    /// As `get_dimensions`, also reading the horizontal DPI value that
    /// `dimension_dpi_attributes` asked for.
    pub fn get_dimensions_and_dpi(&self, values: &Vec<i32>) -> (r: (i32, i32, i32))
        requires
            values@.len() >= 3,
        ensures
            r.0 == values@[0],
            r.1 == values@[1],
            r.2 == values@[2],
    {
        (values[0], values[1], values[2])
    }

    /// How a power request is encoded for a session's revision: the 1.3
    /// revision drives the legacy blank entry point, the 1.4 revision the
    /// four-state power-mode enum.
    pub open spec fn power_mode_code(version: HwcApiVersion, enable: bool) -> i32 {
        match version {
            HwcApiVersion::Hwc1_3 => if enable {
                HWC_BLANK_UNBLANK
            } else {
                HWC_BLANK_BLANK
            },
            HwcApiVersion::Hwc1_4 => if enable {
                HWC_POWER_MODE_NORMAL
            } else {
                HWC_POWER_MODE_OFF
            },
        }
    }

    /// Turns the display on or off: records the requested state and returns
    /// the one power command the embedder must issue, with the autosuspend
    /// inhibitor disabled first exactly when the display is being enabled.
    pub fn set_display(&mut self, enable: bool) -> (r: PowerRequest)
        ensures
            r == (PowerRequest {
                disable_autosuspend: enable,
                mode: HwcDevice::power_mode_code(old(self).spec_version(), enable),
            }),
            final(self).spec_version() == old(self).spec_version(),
            final(self).spec_powered() == enable,
    {
        let mode: i32 = if self.version == HwcApiVersion::Hwc1_3 {
            if enable {
                HWC_BLANK_UNBLANK
            } else {
                HWC_BLANK_BLANK
            }
        } else {
            if enable {
                HWC_POWER_MODE_NORMAL
            } else {
                HWC_POWER_MODE_OFF
            }
        };
        self.powered = enable;
        PowerRequest { disable_autosuspend: enable, mode }
    }
}

} // verus!
