//! The window-bound presentable surface: format negotiation, the applied
//! configuration, and the resize rule that keeps it valid.

use vstd::prelude::*;

verus! {

/// The client area of the window, in pixels.
#[derive(Clone, Copy, PartialEq, Eq, Structural, Debug)]
pub struct WindowSize {
    pub width: u32,
    pub height: u32,
}

/// A pixel format as the presentation layer offers it: an identifier the
/// embedder assigns (`0` names its default swapchain format, a BGRA sRGB
/// one on common platforms) plus whether the format is an sRGB one.
#[derive(Clone, Copy, PartialEq, Eq, Structural, Debug)]
pub struct PixelFormat {
    pub code: u32,
    pub srgb: bool,
}

/// A present mode as offered by the presentation layer, by an identifier
/// the embedder assigns.
pub type PresentMode = u32;

/// An alpha compositing mode as offered by the presentation layer, by an
/// identifier the embedder assigns.
pub type AlphaMode = u32;

/// The configuration applied to the surface: pixel format, size in pixels,
/// and presentation parameters. A configuration is applied only while both
/// dimensions are positive; a zero-area surface is invalid for the
/// presentation layer.
#[derive(Clone, Copy, PartialEq, Eq, Structural, Debug)]
pub struct SurfaceConfig {
    pub format: PixelFormat,
    pub width: u32,
    pub height: u32,
    pub present_mode: PresentMode,
    pub alpha_mode: AlphaMode,
}

impl SurfaceConfig {
    /// A configuration may be applied to the surface only with a positive area.
    pub open spec fn valid(self) -> bool {
        self.width > 0 && self.height > 0
    }
}

/// The first sRGB format of the offered list, if any.
pub open spec fn first_srgb(formats: Seq<PixelFormat>) -> Option<PixelFormat>
    decreases formats.len(),
{
    if formats.len() == 0 {
        None
    } else if formats[0].srgb {
        Some(formats[0])
    } else {
        first_srgb(formats.skip(1))
    }
}

/// The format the surface will use: the first sRGB entry of the offered
/// list, falling back to the first entry if none is sRGB.
pub open spec fn selected_format(formats: Seq<PixelFormat>) -> PixelFormat
    recommends
        formats.len() > 0,
{
    match first_srgb(formats) {
        Some(f) => f,
        None => formats[0],
    }
}

/// Picks the surface format from the offered list: the first sRGB entry,
/// else the first entry.
pub fn select_format(formats: &Vec<PixelFormat>) -> (r: PixelFormat)
    requires
        formats@.len() > 0,
    ensures
        r == selected_format(formats@),
{
    let n: usize = formats.len();
    let mut i: usize = 0;
    proof {
        assert(formats@.skip(0) =~= formats@);
    }
    while i < n
        invariant
            n == formats@.len(),
            0 <= i <= n,
            first_srgb(formats@) == first_srgb(formats@.skip(i as int)),
        decreases n - i,
    {
        proof {
            assert(formats@.skip(i as int)[0] == formats@[i as int]);
            assert(formats@.skip(i as int).skip(1) =~= formats@.skip(i + 1));
        }
        if formats[i].srgb {
            return formats[i];
        }
        i = i + 1;
    }
    proof {
        assert(formats@.skip(n as int) =~= Seq::<PixelFormat>::empty());
    }
    formats[0]
}

/// Negotiates the configuration for a freshly created surface: the first
/// sRGB format (else the first offered), the first offered present and
/// alpha modes, sized to the window.
pub fn configure(
    formats: &Vec<PixelFormat>,
    present_modes: &Vec<PresentMode>,
    alpha_modes: &Vec<AlphaMode>,
    size: WindowSize,
) -> (c: SurfaceConfig)
    requires
        formats@.len() > 0,
        present_modes@.len() > 0,
        alpha_modes@.len() > 0,
        size.width > 0,
        size.height > 0,
    ensures
        c.format == selected_format(formats@),
        c.width == size.width,
        c.height == size.height,
        c.present_mode == present_modes@[0],
        c.alpha_mode == alpha_modes@[0],
        c.valid(),
{
    let format = select_format(formats);
    SurfaceConfig {
        format,
        width: size.width,
        height: size.height,
        present_mode: present_modes[0],
        alpha_mode: alpha_modes[0],
    }
}

/// The resize rule: a request with a positive area replaces the
/// configuration's dimensions; a request with a zero dimension is rejected
/// and the prior configuration kept.
pub open spec fn resize_spec(c: SurfaceConfig, s: WindowSize) -> SurfaceConfig {
    if s.width > 0 && s.height > 0 {
        SurfaceConfig { width: s.width, height: s.height, ..c }
    } else {
        c
    }
}

/// Every positive resize request is applied exactly: the new dimensions are
/// taken over and the negotiated format and modes are kept.
pub proof fn lemma_resize_applies(c: SurfaceConfig, s: WindowSize)
    requires
        s.width > 0,
        s.height > 0,
    ensures
        resize_spec(c, s).width == s.width,
        resize_spec(c, s).height == s.height,
        resize_spec(c, s).format == c.format,
        resize_spec(c, s).present_mode == c.present_mode,
        resize_spec(c, s).alpha_mode == c.alpha_mode,
        resize_spec(c, s).valid(),
{
}

/// Every resize request with a zero dimension is a no-op: the prior
/// configuration stands unchanged.
pub proof fn lemma_resize_zero_noop(c: SurfaceConfig, s: WindowSize)
    requires
        s.width == 0 || s.height == 0,
    ensures
        resize_spec(c, s) == c,
{
}

/// The selected format is one of the offered ones, and it is an sRGB one
/// whenever the list offers any sRGB format.
pub proof fn lemma_selected_format_supported(formats: Seq<PixelFormat>)
    requires
        formats.len() > 0,
    ensures
        formats.contains(selected_format(formats)),
        (exists|i: int| 0 <= i < formats.len() && formats[i].srgb) ==> selected_format(
            formats,
        ).srgb,
    decreases formats.len(),
{
    if formats[0].srgb {
        assert(formats.contains(formats[0]));
    } else if formats.len() == 1 {
        assert(formats.contains(formats[0]));
        assert forall|i: int| 0 <= i < formats.len() implies !formats[i].srgb by {
            assert(i == 0);
        }
    } else {
        let rest = formats.skip(1);
        lemma_selected_format_supported(rest);
        if exists|i: int| 0 <= i < rest.len() && rest[i].srgb {
            let i = choose|i: int| 0 <= i < rest.len() && rest[i].srgb;
            assert(formats[i + 1].srgb);
            assert(rest.contains(selected_format(rest)));
            let j = choose|j: int| 0 <= j < rest.len() && rest[j] == selected_format(rest);
            assert(formats[j + 1] == selected_format(rest));
            assert(formats.contains(selected_format(formats)));
        } else {
            assert(first_srgb(rest) is None) by {
                if first_srgb(rest) is Some {
                    lemma_first_srgb_offered(rest);
                }
            }
            assert(selected_format(formats) == formats[0]);
            assert(formats.contains(formats[0]));
            assert forall|i: int| 0 <= i < formats.len() implies !formats[i].srgb by {
                if i > 0 {
                    assert(rest[i - 1] == formats[i]);
                }
            }
        }
    }
}

/// Whatever `first_srgb` yields is an sRGB entry of the list.
pub proof fn lemma_first_srgb_offered(formats: Seq<PixelFormat>)
    requires
        first_srgb(formats) is Some,
    ensures
        exists|i: int| 0 <= i < formats.len() && formats[i].srgb,
        first_srgb(formats)->Some_0.srgb,
        formats.contains(first_srgb(formats)->Some_0),
    decreases formats.len(),
{
    if formats[0].srgb {
        assert(formats.contains(formats[0]));
    } else {
        let rest = formats.skip(1);
        lemma_first_srgb_offered(rest);
        let i = choose|i: int| 0 <= i < rest.len() && rest[i].srgb;
        assert(formats[i + 1].srgb);
        let j = choose|j: int| 0 <= j < rest.len() && rest[j] == first_srgb(rest)->Some_0;
        assert(formats[j + 1] == first_srgb(formats)->Some_0);
        assert(formats.contains(first_srgb(formats)->Some_0));
    }
}

} // verus!
