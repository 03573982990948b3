use rmk_boot::layout::{
    app_linker_layout, boot_linker_layout, build_rmk_boot_x, compute_layout, resolve_target,
    ConfigError, Features, Platform, RpFlash, SwapMode, Target,
};
use rmk_boot::variant::{nrf_variant_slug, platform_label, variant_slug};

fn none() -> Features {
    Features {
        rp2040: false,
        rp2040_2mb: false,
        rp2040_4mb: false,
        rp2040_8mb: false,
        rp2040_16mb: false,
        nrf52840: false,
        nrf52833: false,
        noswap: false,
        dfu_ext: false,
        defmt: false,
    }
}

fn target(platform: Platform, mode: SwapMode, defmt: bool) -> Target {
    Target { platform, mode, defmt }
}

#[test]
fn resolve_each_error() {
    assert_eq!(
        resolve_target(&Features { nrf52840: true, nrf52833: true, ..none() }),
        Err(ConfigError::NrfChipsExclusive)
    );
    assert_eq!(resolve_target(&Features { rp2040: true, ..none() }), Err(ConfigError::NoFlashSize));
    assert_eq!(resolve_target(&none()), Err(ConfigError::NoPlatform));
    assert_eq!(
        resolve_target(&Features { nrf52840: true, noswap: true, dfu_ext: true, ..none() }),
        Err(ConfigError::SwapModesExclusive)
    );
    assert_eq!(
        resolve_target(&Features { rp2040: true, rp2040_2mb: true, nrf52833: true, ..none() }),
        Err(ConfigError::PlatformsExclusive)
    );
    assert_eq!(
        resolve_target(&Features { rp2040: true, rp2040_2mb: true, rp2040_8mb: true, ..none() }),
        Err(ConfigError::MultipleFlashSizes)
    );
}

#[test]
fn resolve_valid_targets() {
    assert_eq!(
        resolve_target(&Features { rp2040: true, rp2040_4mb: true, noswap: true, ..none() }),
        Ok(target(Platform::Rp2040(RpFlash::Mb4), SwapMode::NoSwap, false))
    );
    assert_eq!(
        resolve_target(&Features { nrf52833: true, dfu_ext: true, defmt: true, ..none() }),
        Ok(target(Platform::Nrf52833, SwapMode::DfuExt, true))
    );
    assert_eq!(
        resolve_target(&Features { nrf52840: true, ..none() }),
        Ok(target(Platform::Nrf52840, SwapMode::Swap, false))
    );
}

#[test]
fn nrf52840_swap_layout() {
    let l = compute_layout(target(Platform::Nrf52840, SwapMode::Swap, false));
    assert_eq!(l.flash_base, 0);
    assert_eq!(l.ram_size, 256 * 1024);
    assert_eq!(l.state_offset, 0x6000);
    assert_eq!(l.active_offset, 0x7000);
    assert_eq!(l.active_size, 491520);
    assert_eq!(l.dfu_offset, 0x7f000);
    assert_eq!(l.dfu_size, 495616);
    assert_eq!(l.storage_offset, 0xf8000);
    assert_eq!(l.storage_offset + l.storage_size, 1024 * 1024);
}

#[test]
fn nrf52833_defmt_swap_layout() {
    let l = compute_layout(target(Platform::Nrf52833, SwapMode::Swap, true));
    assert_eq!(l.bootloader_size, 0x8000);
    assert_eq!(l.active_offset, 0x9000);
    assert_eq!(l.active_size, 225280);
    assert_eq!(l.dfu_size, 229376);
    assert_eq!(l.storage_offset, 0x78000);
    assert_eq!(l.ram_size, 128 * 1024);
}

#[test]
fn rp2040_layouts() {
    let l = compute_layout(target(Platform::Rp2040(RpFlash::Mb2), SwapMode::Swap, false));
    assert_eq!(l.flash_base, 0x1000_0000);
    assert_eq!(l.active_size, 1015808);
    assert_eq!(l.dfu_offset, 0xff000);
    assert_eq!(l.dfu_size, 1019904);
    assert_eq!(l.storage_offset, 0x1f8000);
    let e = compute_layout(target(Platform::Rp2040(RpFlash::Mb16), SwapMode::DfuExt, true));
    assert_eq!(e.bootloader_size, 0x6000);
    assert_eq!(e.active_size, 16711680);
    assert_eq!(e.active_size % 65536, 0);
    assert_eq!(e.dfu_size, 0);
    assert_eq!(e.storage_offset, 0xff7000);
    let n = compute_layout(target(Platform::Rp2040(RpFlash::Mb4), SwapMode::NoSwap, false));
    assert_eq!(n.active_size, 4132864);
    assert_eq!(n.storage_offset + n.storage_size, 4 * 1024 * 1024);
}

#[test]
fn partitions_are_contiguous_for_every_target() {
    let platforms = [
        Platform::Rp2040(RpFlash::Mb2),
        Platform::Rp2040(RpFlash::Mb4),
        Platform::Rp2040(RpFlash::Mb8),
        Platform::Rp2040(RpFlash::Mb16),
        Platform::Nrf52840,
        Platform::Nrf52833,
    ];
    for p in platforms {
        for m in [SwapMode::Swap, SwapMode::NoSwap, SwapMode::DfuExt] {
            for d in [false, true] {
                let l = compute_layout(target(p, m, d));
                assert_eq!(l.state_offset + l.state_size, l.active_offset);
                assert_eq!(l.active_offset + l.active_size, l.dfu_offset);
                assert_eq!(l.dfu_offset + l.dfu_size, l.storage_offset);
                assert!(l.storage_offset + l.storage_size <= l.flash_size);
                assert_eq!(l.active_size % 4096, 0);
                if m == SwapMode::Swap {
                    assert_eq!(l.dfu_size, l.active_size + 4096);
                }
            }
        }
    }
}

#[test]
fn app_linker_values() {
    let a = app_linker_layout(target(Platform::Rp2040(RpFlash::Mb2), SwapMode::Swap, false));
    assert_eq!(a.flash_origin, 0x1000_7000);
    assert_eq!(a.flash_length, 1015808);
    assert_eq!((a.state_start, a.state_end), (0x6000, 0x7000));
    assert_eq!((a.active_start, a.active_end), (0x7000, 0xff000));
    assert_eq!((a.dfu_start, a.dfu_end), (0xff000, 0x1f8000));
    assert_eq!((a.storage_start, a.storage_end), (0x1f8000, 0x200000));
    assert_eq!(a.ram_length, 256 * 1024);
    let n = app_linker_layout(target(Platform::Nrf52840, SwapMode::NoSwap, false));
    assert_eq!((n.dfu_start, n.dfu_end), (0, 0));
    assert_eq!(n.flash_origin, 0x7000);
}

#[test]
fn boot_linker_values() {
    let n = boot_linker_layout(target(Platform::Nrf52840, SwapMode::DfuExt, false));
    assert_eq!((n.dfu_start, n.dfu_end), (n.active_start, n.active_end));
    let r = boot_linker_layout(target(Platform::Rp2040(RpFlash::Mb2), SwapMode::NoSwap, false));
    assert_eq!(r.dfu_start, r.active_end);
    assert_eq!(r.dfu_end, r.active_end);
    let s = boot_linker_layout(target(Platform::Nrf52840, SwapMode::Swap, false));
    assert_eq!((s.state_start, s.state_end), (0x6000, 0x7000));
    assert_eq!((s.dfu_start, s.dfu_end), (0x7f000, 0xf8000));
}

#[test]
fn rmk_boot_values_relative_to_flash_base() {
    let a = build_rmk_boot_x(0x1000_7000, 0x1000, 0x6000, 0x1000, 0, 0, 0x8000, 0x8000, 0x1000_0000, 1024);
    assert_eq!(a.active_start, 0x7000);
    assert_eq!(a.active_end, 0x8000);
    assert_eq!(a.storage_end, 0x10000);
    assert_eq!(a.flash_origin, 0x1000_7000);
}

#[test]
fn variant_names() {
    assert_eq!(nrf_variant_slug("nrf52840", false, false), "nrf52840");
    assert_eq!(nrf_variant_slug("nrf52840", true, false), "nrf52840-noswap");
    assert_eq!(nrf_variant_slug("nrf52833", false, true), "nrf52833-dfu_ext");
    assert_eq!(nrf_variant_slug("nrf52833", true, true), "nrf52833-noswap");
    assert_eq!(
        variant_slug(target(Platform::Rp2040(RpFlash::Mb16), SwapMode::DfuExt, false)),
        "rp2040-16mb-dfu_ext"
    );
    assert_eq!(variant_slug(target(Platform::Rp2040(RpFlash::Mb2), SwapMode::Swap, false)), "rp2040-2mb");
    assert_eq!(platform_label(Platform::Rp2040(RpFlash::Mb8)), "RP2040 8 MB");
    assert_eq!(platform_label(Platform::Nrf52833), "nRF52833");
}
