//! Graphics settings for the desktop shell on Linux: from the PCI device
//! listing, decide whether NVIDIA PRIME offload or the WebKit DMA-BUF
//! workaround is to be switched on.

use vstd::prelude::*;

verus! {

/// The variable whose presence means the user has chosen the settings.
pub const PRIME_OFFLOAD_VAR: &'static str = "__NV_PRIME_RENDER_OFFLOAD";
/// Selects the GLX vendor library.
pub const GLX_VENDOR_VAR: &'static str = "__GLX_VENDOR_LIBRARY_NAME";
/// Turns off WebKit's DMA-BUF renderer.
pub const WEBKIT_DMABUF_VAR: &'static str = "WEBKIT_DISABLE_DMABUF_RENDERER";

/// The lower-case form of a text, as `str::to_lowercase` gives it.
pub uninterp spec fn lower_of(s: Seq<char>) -> Seq<char>;

/// Whether `needle` occurs in `hay` as a run of consecutive characters.
pub open spec fn occurs_in(needle: Seq<char>, hay: Seq<char>) -> bool {
    exists|i: int| 0 <= i && i + needle.len() <= hay.len() && #[trigger] hay.subrange(i, i + needle.len()) == needle
}

/// Relies on `str::to_lowercase`: the result depends on the text alone.
#[verifier::external_body]
fn lowercase(s: &str) -> (r: String)
    ensures
        r@ == lower_of(s@),
{
    s.to_lowercase()
}

/// Relies on `str::contains` with a `&str` pattern: whether the pattern
/// matches a sub-slice of the text.
#[verifier::external_body]
fn contains(hay: &str, needle: &str) -> (r: bool)
    ensures
        r == occurs_in(needle@, hay@),
{
    hay.contains(needle)
}

/// Whether a lower-cased device listing shows an NVIDIA display controller.
pub open spec fn lists_nvidia(lowered: Seq<char>) -> bool {
    &&& occurs_in("nvidia"@, lowered)
    &&& (occurs_in("vga"@, lowered) || occurs_in("3d"@, lowered))
}

/// Whether a lower-cased device listing shows an integrated GPU (Intel, or an
/// AMD one that is not a Radeon RX card) beside the discrete one.
pub open spec fn lists_integrated(lowered: Seq<char>) -> bool {
    ||| occurs_in("intel"@, lowered) && occurs_in("vga"@, lowered)
    ||| occurs_in("amd"@, lowered) && occurs_in("vga"@, lowered) && !occurs_in("radeon rx"@, lowered)
}

/// `lists_nvidia` on an already lower-cased listing.
pub fn nvidia_listed(lowered: &str) -> (r: bool)
    ensures
        r == lists_nvidia(lowered@),
{
    contains(lowered, "nvidia") && (contains(lowered, "vga") || contains(lowered, "3d"))
}

/// `lists_integrated` on an already lower-cased listing.
pub fn integrated_listed(lowered: &str) -> (r: bool)
    ensures
        r == lists_integrated(lowered@),
{
    let vga = contains(lowered, "vga");
    let has_intel = contains(lowered, "intel") && vga;
    let has_amd_integrated = contains(lowered, "amd") && vga && !contains(lowered, "radeon rx");
    has_intel || has_amd_integrated
}

/// Whether the device listing shows an NVIDIA GPU, in any letter case.
pub fn detect_nvidia_gpu(listing: &str) -> (r: bool)
    ensures
        r == lists_nvidia(lower_of(listing@)),
{
    let lowered = lowercase(listing);
    nvidia_listed(lowered.as_str())
}

/// Whether the device listing shows an integrated GPU, in any letter case.
pub fn detect_hybrid_gpu(listing: &str) -> (r: bool)
    ensures
        r == lists_integrated(lower_of(listing@)),
{
    let lowered = lowercase(listing);
    integrated_listed(lowered.as_str())
}

/// The graphics setup that was found.
#[derive(Debug, Clone, Copy, PartialEq, Eq, Structural)]
pub enum GpuSetup {
    /// The user set the variables already: leave them.
    ManualOverride,
    /// No NVIDIA GPU (or no listing): nothing to do.
    NoNvidia,
    /// NVIDIA beside an integrated GPU: render on the NVIDIA one.
    HybridOffload,
    /// An NVIDIA GPU alone.
    DiscreteNvidia,
}

impl GpuSetup {
    /// The environment variables to set for this setup, in order.
    pub fn env_vars(&self) -> (r: Vec<(&'static str, &'static str)>)
        ensures
            *self == GpuSetup::HybridOffload ==> r@ == seq![
                (PRIME_OFFLOAD_VAR, "1"),
                (GLX_VENDOR_VAR, "nvidia"),
                (WEBKIT_DMABUF_VAR, "1"),
            ],
            *self == GpuSetup::DiscreteNvidia ==> r@ == seq![(WEBKIT_DMABUF_VAR, "1")],
            *self == GpuSetup::ManualOverride || *self == GpuSetup::NoNvidia ==> r@.len() == 0,
    {
        let mut r: Vec<(&'static str, &'static str)> = Vec::new();
        match self {
            GpuSetup::HybridOffload => {
                r.push((PRIME_OFFLOAD_VAR, "1"));
                r.push((GLX_VENDOR_VAR, "nvidia"));
                r.push((WEBKIT_DMABUF_VAR, "1"));
            },
            GpuSetup::DiscreteNvidia => {
                r.push((WEBKIT_DMABUF_VAR, "1"));
            },
            _ => {},
        }
        proof {
            if *self == GpuSetup::HybridOffload {
                assert(r@ =~= seq![
                    (PRIME_OFFLOAD_VAR, "1"),
                    (GLX_VENDOR_VAR, "nvidia"),
                    (WEBKIT_DMABUF_VAR, "1"),
                ]);
            } else if *self == GpuSetup::DiscreteNvidia {
                assert(r@ =~= seq![(WEBKIT_DMABUF_VAR, "1")]);
            }
        }
        r
    }
}

/// The graphics setup of a Linux machine: a manual override wins; otherwise
/// the PCI listing (`None` where it could not be read) decides.
pub fn linux_nvidia_optimization(manual_override: bool, listing: Option<&str>) -> (r: GpuSetup)
    ensures
        r == linux_setup(manual_override, listing),
{
    if manual_override {
        return GpuSetup::ManualOverride;
    }
    match listing {
        None => GpuSetup::NoNvidia,
        Some(l) => {
            if !detect_nvidia_gpu(l) {
                GpuSetup::NoNvidia
            } else if detect_hybrid_gpu(l) {
                GpuSetup::HybridOffload
            } else {
                GpuSetup::DiscreteNvidia
            }
        },
    }
}

/// The graphics settings to apply at start-up. Only Linux needs any
/// (`on_linux`); elsewhere nothing is changed.
pub fn apply_optimizations(on_linux: bool, manual_override: bool, listing: Option<&str>) -> (r: GpuSetup)
    ensures
        !on_linux ==> r == GpuSetup::NoNvidia,
        on_linux ==> r == linux_setup(manual_override, listing),
{
    if on_linux {
        linux_nvidia_optimization(manual_override, listing)
    } else {
        GpuSetup::NoNvidia
    }
}

/// The setup that `linux_nvidia_optimization` decides.
pub open spec fn linux_setup(manual_override: bool, listing: Option<&str>) -> GpuSetup {
    if manual_override {
        GpuSetup::ManualOverride
    } else {
        match listing {
            None => GpuSetup::NoNvidia,
            Some(l) => if !lists_nvidia(lower_of(l@)) {
                GpuSetup::NoNvidia
            } else if lists_integrated(lower_of(l@)) {
                GpuSetup::HybridOffload
            } else {
                GpuSetup::DiscreteNvidia
            },
        }
    }
}

} // verus!
