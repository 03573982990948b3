use vstd::prelude::*;
use vstd::string::StringExecFns;
use crate::layout::{Platform, RpFlash, SwapMode, Target};

verus! {

/// The release name of a variant: the platform name, followed by the
/// layout-changing feature when one is enabled (`noswap` wins over
/// `dfu_ext`).
pub open spec fn slug_spec(platform: Seq<char>, is_noswap: bool, is_dfu_ext: bool) -> Seq<char> {
    if is_noswap {
        platform + "-noswap"@
    } else if is_dfu_ext {
        platform + "-dfu_ext"@
    } else {
        platform
    }
}

/// Variant slug for a platform, appending the layout-modifying `noswap` or
/// `dfu_ext` feature when enabled.
pub fn nrf_variant_slug(platform: &str, is_noswap: bool, is_dfu_ext: bool) -> (r: String)
    ensures
        r@ == slug_spec(platform@, is_noswap, is_dfu_ext),
{
    let base = String::from_str(platform);
    if is_noswap {
        base.concat("-noswap")
    } else if is_dfu_ext {
        base.concat("-dfu_ext")
    } else {
        base
    }
}

/// Platform part of the release name.
pub open spec fn platform_slug_spec(p: Platform) -> Seq<char> {
    match p {
        Platform::Rp2040(RpFlash::Mb2) => "rp2040-2mb"@,
        Platform::Rp2040(RpFlash::Mb4) => "rp2040-4mb"@,
        Platform::Rp2040(RpFlash::Mb8) => "rp2040-8mb"@,
        Platform::Rp2040(RpFlash::Mb16) => "rp2040-16mb"@,
        Platform::Nrf52840 => "nrf52840"@,
        Platform::Nrf52833 => "nrf52833"@,
    }
}

/// Human-readable name of a platform, used in generated files.
pub open spec fn platform_label_spec(p: Platform) -> Seq<char> {
    match p {
        Platform::Rp2040(RpFlash::Mb2) => "RP2040 2 MB"@,
        Platform::Rp2040(RpFlash::Mb4) => "RP2040 4 MB"@,
        Platform::Rp2040(RpFlash::Mb8) => "RP2040 8 MB"@,
        Platform::Rp2040(RpFlash::Mb16) => "RP2040 16 MB"@,
        Platform::Nrf52840 => "nRF52840"@,
        Platform::Nrf52833 => "nRF52833"@,
    }
}

/// The platform part of the release name.
pub fn platform_slug(p: Platform) -> (r: &'static str)
    ensures
        r@ == platform_slug_spec(p),
{
    match p {
        Platform::Rp2040(RpFlash::Mb2) => "rp2040-2mb",
        Platform::Rp2040(RpFlash::Mb4) => "rp2040-4mb",
        Platform::Rp2040(RpFlash::Mb8) => "rp2040-8mb",
        Platform::Rp2040(RpFlash::Mb16) => "rp2040-16mb",
        Platform::Nrf52840 => "nrf52840",
        Platform::Nrf52833 => "nrf52833",
    }
}

/// The human-readable platform name.
pub fn platform_label(p: Platform) -> (r: &'static str)
    ensures
        r@ == platform_label_spec(p),
{
    match p {
        Platform::Rp2040(RpFlash::Mb2) => "RP2040 2 MB",
        Platform::Rp2040(RpFlash::Mb4) => "RP2040 4 MB",
        Platform::Rp2040(RpFlash::Mb8) => "RP2040 8 MB",
        Platform::Rp2040(RpFlash::Mb16) => "RP2040 16 MB",
        Platform::Nrf52840 => "nRF52840",
        Platform::Nrf52833 => "nRF52833",
    }
}

/// The release name of a build target, such as `rp2040-4mb-noswap`.
pub fn variant_slug(t: Target) -> (r: String)
    ensures
        r@ == slug_spec(
            platform_slug_spec(t.platform),
            t.mode == SwapMode::NoSwap,
            t.mode == SwapMode::DfuExt,
        ),
{
    let is_noswap = match t.mode {
        SwapMode::NoSwap => true,
        _ => false,
    };
    let is_dfu_ext = match t.mode {
        SwapMode::DfuExt => true,
        _ => false,
    };
    nrf_variant_slug(platform_slug(t.platform), is_noswap, is_dfu_ext)
}

/// The character at index 7 of a platform's release name, which tells the
/// platforms apart.
spec fn slug_key(p: Platform) -> char {
    match p {
        Platform::Rp2040(RpFlash::Mb2) => '2',
        Platform::Rp2040(RpFlash::Mb4) => '4',
        Platform::Rp2040(RpFlash::Mb8) => '8',
        Platform::Rp2040(RpFlash::Mb16) => '1',
        Platform::Nrf52840 => '0',
        Platform::Nrf52833 => '3',
    }
}

/// Each platform's release name is its cargo feature name.
proof fn lemma_platform_slug_text(p: Platform)
    ensures
        platform_slug_spec(p).len() >= 8,
        platform_slug_spec(p)[7] == slug_key(p),
        platform_slug_spec(p).len() == (match p {
            Platform::Rp2040(RpFlash::Mb16) => 11int,
            Platform::Rp2040(_) => 10int,
            _ => 8int,
        }),
{
    reveal_strlit("rp2040-2mb");
    reveal_strlit("rp2040-4mb");
    reveal_strlit("rp2040-8mb");
    reveal_strlit("rp2040-16mb");
    reveal_strlit("nrf52840");
    reveal_strlit("nrf52833");
}

/// Law: each platform's release name is its cargo feature name
/// (`rp2040-Nmb`, `nrf52840`, `nrf52833`), and distinct platforms get
/// distinct names.
pub proof fn lemma_platform_slugs(p: Platform, q: Platform)
    ensures
        platform_slug_spec(Platform::Rp2040(RpFlash::Mb2)) == "rp2040-2mb"@,
        platform_slug_spec(Platform::Rp2040(RpFlash::Mb4)) == "rp2040-4mb"@,
        platform_slug_spec(Platform::Rp2040(RpFlash::Mb8)) == "rp2040-8mb"@,
        platform_slug_spec(Platform::Rp2040(RpFlash::Mb16)) == "rp2040-16mb"@,
        platform_slug_spec(Platform::Nrf52840) == "nrf52840"@,
        platform_slug_spec(Platform::Nrf52833) == "nrf52833"@,
        p != q ==> platform_slug_spec(p) != platform_slug_spec(q),
{
    lemma_platform_slug_text(p);
    lemma_platform_slug_text(q);
    if p != q {
        assert(slug_key(p) != slug_key(q));
        assert(platform_slug_spec(p)[7] != platform_slug_spec(q)[7]);
    }
}

/// Law: distinct build variants (platform and swap mode) get distinct
/// release names, so no release file overwrites another.
pub proof fn lemma_variant_slugs_distinct(t: Target, u: Target)
    requires
        t.platform != u.platform || t.mode != u.mode,
    ensures
        slug_spec(
            platform_slug_spec(t.platform),
            t.mode == SwapMode::NoSwap,
            t.mode == SwapMode::DfuExt,
        ) != slug_spec(
            platform_slug_spec(u.platform),
            u.mode == SwapMode::NoSwap,
            u.mode == SwapMode::DfuExt,
        ),
{
    lemma_platform_slug_text(t.platform);
    lemma_platform_slug_text(u.platform);
    reveal_strlit("-noswap");
    reveal_strlit("-dfu_ext");
    let a = slug_spec(platform_slug_spec(t.platform), t.mode == SwapMode::NoSwap, t.mode == SwapMode::DfuExt);
    let b = slug_spec(platform_slug_spec(u.platform), u.mode == SwapMode::NoSwap, u.mode == SwapMode::DfuExt);
    if t.platform != u.platform {
        assert(a[7] == platform_slug_spec(t.platform)[7]);
        assert(b[7] == platform_slug_spec(u.platform)[7]);
        assert(slug_key(t.platform) != slug_key(u.platform));
        assert(a[7] != b[7]);
    } else {
        assert(a.len() != b.len());
    }
}

} // verus!
