use vstd::prelude::*;

verus! {

/// Size of a flash erase page on both chips.
pub const PAGE_SIZE: u32 = 4096;
/// Erase unit of the external SPI flash; with an external DFU flash the
/// swap works in units of this size.
pub const EXT_SWAP_PAGE_SIZE: u32 = 65536;
/// Size of the storage partition kept for the application at the end.
pub const STORAGE_SIZE: u32 = 32768;
/// Size of the bootloader state partition.
pub const STATE_SIZE: u32 = 4096;

/// Flash size variants of RP2040 boards.
#[derive(Clone, Copy, Debug, PartialEq, Eq, Structural)]
pub enum RpFlash {
    Mb2,
    Mb4,
    Mb8,
    Mb16,
}

/// The chip the bootloader is built for.
#[derive(Clone, Copy, Debug, PartialEq, Eq, Structural)]
pub enum Platform {
    Rp2040(RpFlash),
    Nrf52840,
    Nrf52833,
}

/// How updates reach the active partition.
#[derive(Clone, Copy, Debug, PartialEq, Eq, Structural)]
pub enum SwapMode {
    /// Swap between the active partition and an internal DFU partition.
    Swap,
    /// No swap: the application is booted directly and updated in place.
    NoSwap,
    /// Swap between the active partition and an external SPI flash.
    DfuExt,
}

/// A fully resolved build configuration.
#[derive(Clone, Copy, Debug, PartialEq, Eq, Structural)]
pub struct Target {
    pub platform: Platform,
    pub mode: SwapMode,
    /// Logging over RTT is built in (nRF52 then needs a larger bootloader).
    pub defmt: bool,
}

/// The cargo features a build enables.
#[derive(Clone, Copy, Debug, PartialEq, Eq, Structural)]
pub struct Features {
    pub rp2040: bool,
    pub rp2040_2mb: bool,
    pub rp2040_4mb: bool,
    pub rp2040_8mb: bool,
    pub rp2040_16mb: bool,
    pub nrf52840: bool,
    pub nrf52833: bool,
    pub noswap: bool,
    pub dfu_ext: bool,
    pub defmt: bool,
}

/// Why a feature combination cannot be built.
#[derive(Clone, Copy, Debug, PartialEq, Eq, Structural)]
pub enum ConfigError {
    /// Both nRF52 chips were selected.
    NrfChipsExclusive,
    /// RP2040 was selected without a flash size.
    NoFlashSize,
    /// Neither RP2040 nor an nRF52 chip was selected.
    NoPlatform,
    /// `noswap` and `dfu_ext` were both selected.
    SwapModesExclusive,
    /// RP2040 and an nRF52 chip were both selected.
    PlatformsExclusive,
    /// More than one RP2040 flash size was selected.
    MultipleFlashSizes,
}

/// Number of RP2040 flash size features enabled.
pub open spec fn flash_size_count(f: Features) -> int {
    (if f.rp2040_2mb { 1int } else { 0int }) + (if f.rp2040_4mb { 1int } else { 0int }) + (
    if f.rp2040_8mb { 1int } else { 0int }) + (if f.rp2040_16mb { 1int } else { 0int })
}

/// The RP2040 flash size selected; the smallest one wins when several are.
pub open spec fn first_flash_size(f: Features) -> RpFlash {
    if f.rp2040_2mb {
        RpFlash::Mb2
    } else if f.rp2040_4mb {
        RpFlash::Mb4
    } else if f.rp2040_8mb {
        RpFlash::Mb8
    } else {
        RpFlash::Mb16
    }
}

/// The outcome of a feature combination: the first error in the order in
/// which a build meets them, or the target it builds.
pub open spec fn resolve_spec(f: Features) -> Result<Target, ConfigError> {
    let nrf = f.nrf52840 || f.nrf52833;
    if f.nrf52840 && f.nrf52833 {
        Err(ConfigError::NrfChipsExclusive)
    } else if f.rp2040 && flash_size_count(f) == 0 {
        Err(ConfigError::NoFlashSize)
    } else if !f.rp2040 && !nrf {
        Err(ConfigError::NoPlatform)
    } else if f.noswap && f.dfu_ext {
        Err(ConfigError::SwapModesExclusive)
    } else if f.rp2040 && nrf {
        Err(ConfigError::PlatformsExclusive)
    } else if f.rp2040 && flash_size_count(f) > 1 {
        Err(ConfigError::MultipleFlashSizes)
    } else {
        let platform = if f.rp2040 {
            Platform::Rp2040(first_flash_size(f))
        } else if f.nrf52840 {
            Platform::Nrf52840
        } else {
            Platform::Nrf52833
        };
        let mode = if f.dfu_ext {
            SwapMode::DfuExt
        } else if f.noswap {
            SwapMode::NoSwap
        } else {
            SwapMode::Swap
        };
        Ok(Target { platform, mode, defmt: f.defmt })
    }
}

/// Resolves the enabled features into a build target, refusing the
/// combinations that cannot be built.
pub fn resolve_target(f: &Features) -> (r: Result<Target, ConfigError>)
    ensures
        r == resolve_spec(*f),
{
    let nrf = f.nrf52840 || f.nrf52833;
    let count: u32 = (if f.rp2040_2mb { 1u32 } else { 0u32 }) + (if f.rp2040_4mb {
        1u32
    } else {
        0u32
    }) + (if f.rp2040_8mb { 1u32 } else { 0u32 }) + (if f.rp2040_16mb { 1u32 } else { 0u32 });
    if f.nrf52840 && f.nrf52833 {
        return Err(ConfigError::NrfChipsExclusive);
    }
    if f.rp2040 && count == 0 {
        return Err(ConfigError::NoFlashSize);
    }
    if !f.rp2040 && !nrf {
        return Err(ConfigError::NoPlatform);
    }
    if f.noswap && f.dfu_ext {
        return Err(ConfigError::SwapModesExclusive);
    }
    if f.rp2040 && nrf {
        return Err(ConfigError::PlatformsExclusive);
    }
    if f.rp2040 && count > 1 {
        return Err(ConfigError::MultipleFlashSizes);
    }
    let platform = if f.rp2040 {
        let size = if f.rp2040_2mb {
            RpFlash::Mb2
        } else if f.rp2040_4mb {
            RpFlash::Mb4
        } else if f.rp2040_8mb {
            RpFlash::Mb8
        } else {
            RpFlash::Mb16
        };
        Platform::Rp2040(size)
    } else if f.nrf52840 {
        Platform::Nrf52840
    } else {
        Platform::Nrf52833
    };
    let mode = if f.dfu_ext {
        SwapMode::DfuExt
    } else if f.noswap {
        SwapMode::NoSwap
    } else {
        SwapMode::Swap
    };
    Ok(Target { platform, mode, defmt: f.defmt })
}

/// The partition layout of the flash, offsets relative to the flash base.
#[derive(Clone, Copy, Debug, PartialEq, Eq, Structural)]
pub struct Layout {
    /// Address at which the flash is mapped.
    pub flash_base: u32,
    pub flash_size: u32,
    pub ram_size: u32,
    /// Bytes taken by the bootloader itself, from the start of the flash.
    pub bootloader_size: u32,
    pub state_offset: u32,
    pub state_size: u32,
    pub active_offset: u32,
    pub active_size: u32,
    pub dfu_offset: u32,
    pub dfu_size: u32,
    pub storage_offset: u32,
    pub storage_size: u32,
}

/// Flash size of a platform, in bytes.
pub open spec fn flash_size_of(p: Platform) -> int {
    match p {
        Platform::Rp2040(RpFlash::Mb2) => 2097152int,
        Platform::Rp2040(RpFlash::Mb4) => 4194304int,
        Platform::Rp2040(RpFlash::Mb8) => 8388608int,
        Platform::Rp2040(RpFlash::Mb16) => 16777216int,
        Platform::Nrf52840 => 1048576int,
        Platform::Nrf52833 => 524288int,
    }
}

/// RAM size of a platform, in bytes.
pub open spec fn ram_size_of(p: Platform) -> int {
    match p {
        Platform::Nrf52833 => 131072int,
        _ => 262144int,
    }
}

/// Bytes the bootloader occupies before its state partition: 24 KiB (the
/// RP2040 count includes its 256-byte second-stage loader); an nRF52 build
/// with logging needs 32 KiB.
pub open spec fn bootloader_size_of(t: Target) -> int {
    match t.platform {
        Platform::Rp2040(_) => 24576int,
        _ => if t.defmt {
            32768int
        } else {
            24576int
        },
    }
}

/// Sizes of the active and DFU partitions sharing `remaining` bytes: with an
/// internal DFU partition it gets one page more than the active one; with
/// an external DFU flash the active partition is a whole number of swap
/// pages; without swap the active partition takes everything.
pub open spec fn partition_sizes(remaining: int, mode: SwapMode) -> (int, int) {
    match mode {
        SwapMode::DfuExt => ((remaining / EXT_SWAP_PAGE_SIZE as int) * EXT_SWAP_PAGE_SIZE as int, 0),
        SwapMode::NoSwap => (remaining, 0),
        SwapMode::Swap => (
            (remaining - PAGE_SIZE as int) / 2,
            (remaining - PAGE_SIZE as int) / 2 + PAGE_SIZE as int,
        ),
    }
}

/// The layout of a target: bootloader, state partition, active partition,
/// DFU partition and storage, one after the other from the start of flash.
pub open spec fn layout_spec(t: Target) -> Layout {
    let flash = flash_size_of(t.platform);
    let bl = bootloader_size_of(t);
    let remaining = flash - bl - STATE_SIZE - STORAGE_SIZE;
    let (active, dfu) = partition_sizes(remaining, t.mode);
    let state_offset = bl;
    let active_offset = bl + STATE_SIZE;
    let dfu_offset = active_offset + active;
    Layout {
        flash_base: match t.platform {
            Platform::Rp2040(_) => 0x1000_0000u32,
            _ => 0u32,
        },
        flash_size: flash as u32,
        ram_size: ram_size_of(t.platform) as u32,
        bootloader_size: bl as u32,
        state_offset: state_offset as u32,
        state_size: STATE_SIZE,
        active_offset: active_offset as u32,
        active_size: active as u32,
        dfu_offset: dfu_offset as u32,
        dfu_size: dfu as u32,
        storage_offset: (dfu_offset + dfu) as u32,
        storage_size: STORAGE_SIZE,
    }
}

/// Computes the flash layout of a target.
pub fn compute_layout(t: Target) -> (l: Layout)
    ensures
        l == layout_spec(t),
{
    let (flash_base, flash_size, ram_size): (u32, u32, u32) = match t.platform {
        Platform::Rp2040(RpFlash::Mb2) => (0x1000_0000, 2 * 1024 * 1024, 256 * 1024),
        Platform::Rp2040(RpFlash::Mb4) => (0x1000_0000, 4 * 1024 * 1024, 256 * 1024),
        Platform::Rp2040(RpFlash::Mb8) => (0x1000_0000, 8 * 1024 * 1024, 256 * 1024),
        Platform::Rp2040(RpFlash::Mb16) => (0x1000_0000, 16 * 1024 * 1024, 256 * 1024),
        Platform::Nrf52840 => (0, 1024 * 1024, 256 * 1024),
        Platform::Nrf52833 => (0, 512 * 1024, 128 * 1024),
    };
    let bootloader_size: u32 = match t.platform {
        Platform::Rp2040(_) => 24 * 1024,
        _ => if t.defmt {
            32 * 1024
        } else {
            24 * 1024
        },
    };
    let remaining = flash_size - bootloader_size - STATE_SIZE - STORAGE_SIZE;
    let (active_size, dfu_size): (u32, u32) = match t.mode {
        SwapMode::DfuExt => ((remaining / EXT_SWAP_PAGE_SIZE) * EXT_SWAP_PAGE_SIZE, 0),
        SwapMode::NoSwap => (remaining, 0),
        SwapMode::Swap => ((remaining - PAGE_SIZE) / 2, (remaining - PAGE_SIZE) / 2 + PAGE_SIZE),
    };
    let state_offset = bootloader_size;
    let active_offset = bootloader_size + STATE_SIZE;
    let dfu_offset = active_offset + active_size;
    Layout {
        flash_base,
        flash_size,
        ram_size,
        bootloader_size,
        state_offset,
        state_size: STATE_SIZE,
        active_offset,
        active_size,
        dfu_offset,
        dfu_size,
        storage_offset: dfu_offset + dfu_size,
        storage_size: STORAGE_SIZE,
    }
}

/// Partition symbols and memory regions an application linked to run
/// under the bootloader needs (offsets relative to the flash base, except
/// the origin of its flash region, which is an absolute address).
#[derive(Clone, Copy, Debug, PartialEq, Eq, Structural)]
pub struct AppLinkerLayout {
    pub flash_origin: u32,
    pub flash_length: u32,
    pub ram_length: u32,
    pub state_start: u32,
    pub state_end: u32,
    pub active_start: u32,
    pub active_end: u32,
    pub dfu_start: u32,
    pub dfu_end: u32,
    pub storage_start: u32,
    pub storage_end: u32,
}

/// The application's view: it runs from the active partition (at the
/// absolute address `active_offset`), and each partition symbol spans
/// `offset .. offset + size`.
pub open spec fn rmk_boot_spec(
    active_offset: int,
    active_size: int,
    state_offset: int,
    state_size: int,
    dfu_offset: int,
    dfu_size: int,
    storage_offset: int,
    storage_size: int,
    flash_base: int,
    ram_size: int,
) -> AppLinkerLayout {
    AppLinkerLayout {
        flash_origin: active_offset as u32,
        flash_length: active_size as u32,
        ram_length: ram_size as u32,
        state_start: state_offset as u32,
        state_end: (state_offset + state_size) as u32,
        active_start: (active_offset - flash_base) as u32,
        active_end: (active_offset - flash_base + active_size) as u32,
        dfu_start: dfu_offset as u32,
        dfu_end: (dfu_offset + dfu_size) as u32,
        storage_start: storage_offset as u32,
        storage_end: (storage_offset + storage_size) as u32,
    }
}

/// Computes the values of the application linker script from the
/// partition placement (`active_offset` absolute, the other offsets
/// relative to `flash_base`).
pub fn build_rmk_boot_x(
    active_offset: u32,
    active_size: u32,
    state_offset: u32,
    state_size: u32,
    dfu_offset: u32,
    dfu_size: u32,
    storage_offset: u32,
    storage_size: u32,
    flash_base: u32,
    ram_size: u32,
) -> (r: AppLinkerLayout)
    requires
        flash_base <= active_offset,
        active_offset - flash_base + active_size <= u32::MAX,
        state_offset + state_size <= u32::MAX,
        dfu_offset + dfu_size <= u32::MAX,
        storage_offset + storage_size <= u32::MAX,
    ensures
        r == rmk_boot_spec(
            active_offset as int,
            active_size as int,
            state_offset as int,
            state_size as int,
            dfu_offset as int,
            dfu_size as int,
            storage_offset as int,
            storage_size as int,
            flash_base as int,
            ram_size as int,
        ),
{
    let rel_active_offset = active_offset - flash_base;
    AppLinkerLayout {
        flash_origin: active_offset,
        flash_length: active_size,
        ram_length: ram_size,
        state_start: state_offset,
        state_end: state_offset + state_size,
        active_start: rel_active_offset,
        active_end: rel_active_offset + active_size,
        dfu_start: dfu_offset,
        dfu_end: dfu_offset + dfu_size,
        storage_start: storage_offset,
        storage_end: storage_offset + storage_size,
    }
}

/// The application linker values of a target: its DFU symbols are empty
/// unless the swap uses an internal DFU partition.
pub open spec fn app_linker_spec(t: Target) -> AppLinkerLayout {
    let l = layout_spec(t);
    let internal_dfu = t.mode == SwapMode::Swap;
    rmk_boot_spec(
        l.flash_base + l.active_offset,
        l.active_size as int,
        l.state_offset as int,
        l.state_size as int,
        if internal_dfu { l.dfu_offset as int } else { 0 },
        if internal_dfu { l.dfu_size as int } else { 0 },
        l.storage_offset as int,
        l.storage_size as int,
        l.flash_base as int,
        l.ram_size as int,
    )
}

/// Partition symbols of the bootloader's own linker script (offsets
/// relative to the flash base).
#[derive(Clone, Copy, Debug, PartialEq, Eq, Structural)]
pub struct BootLinkerLayout {
    pub state_start: u32,
    pub state_end: u32,
    pub active_start: u32,
    pub active_end: u32,
    pub dfu_start: u32,
    pub dfu_end: u32,
}

/// The bootloader's partition symbols: on nRF52 without an internal DFU
/// partition the DFU symbols cover the active partition; on RP2040 they
/// always name the (then empty) DFU region after it.
pub open spec fn boot_linker_spec(t: Target) -> BootLinkerLayout {
    let l = layout_spec(t);
    let dfu_is_active = t.mode != SwapMode::Swap && t.platform !is Rp2040;
    BootLinkerLayout {
        state_start: l.state_offset,
        state_end: (l.state_offset + l.state_size) as u32,
        active_start: l.active_offset,
        active_end: (l.active_offset + l.active_size) as u32,
        dfu_start: if dfu_is_active { l.active_offset } else { l.dfu_offset },
        dfu_end: if dfu_is_active {
            (l.active_offset + l.active_size) as u32
        } else {
            (l.dfu_offset + l.dfu_size) as u32
        },
    }
}

/// Law: the partitions follow each other without gap or overlap
/// (bootloader, state, active, DFU, storage), the last one ends within the
/// flash, and, unless the active partition is rounded down to whole
/// external swap pages, exactly at its end.
pub proof fn lemma_layout_partitions(t: Target)
    ensures
        ({
            let l = layout_spec(t);
            &&& l.state_offset == l.bootloader_size
            &&& l.state_offset + l.state_size == l.active_offset
            &&& l.active_offset + l.active_size == l.dfu_offset
            &&& l.dfu_offset + l.dfu_size == l.storage_offset
            &&& l.storage_offset + l.storage_size <= l.flash_size
            &&& t.mode != SwapMode::DfuExt ==> l.storage_offset + l.storage_size == l.flash_size
            &&& l.active_size > 0
            &&& l.flash_base as int + l.flash_size <= u32::MAX + 1
        }),
{
}

/// Law: with an internal DFU partition it is exactly one page larger than
/// the active partition, as the swap algorithm needs; without swap, or with
/// an external DFU flash, there is no internal DFU partition.
pub proof fn lemma_dfu_partition_size(t: Target)
    ensures
        t.mode == SwapMode::Swap ==> layout_spec(t).dfu_size == layout_spec(t).active_size
            + PAGE_SIZE,
        t.mode != SwapMode::Swap ==> layout_spec(t).dfu_size == 0,
{
}

/// Law: every partition starts and ends on an erase page, and with an
/// external DFU flash the active partition is a whole number of its 64 KiB
/// erase blocks.
pub proof fn lemma_layout_aligned(t: Target)
    ensures
        ({
            let l = layout_spec(t);
            &&& l.state_offset % PAGE_SIZE == 0
            &&& l.state_size % PAGE_SIZE == 0
            &&& l.active_offset % PAGE_SIZE == 0
            &&& l.active_size % PAGE_SIZE == 0
            &&& l.dfu_offset % PAGE_SIZE == 0
            &&& l.dfu_size % PAGE_SIZE == 0
            &&& l.storage_offset % PAGE_SIZE == 0
            &&& t.mode == SwapMode::DfuExt ==> l.active_size % EXT_SWAP_PAGE_SIZE == 0
        }),
{
}

/// Smallest unit the state partition is written in on a platform.
pub open spec fn state_write_size(p: Platform) -> int {
    match p {
        Platform::Rp2040(_) => 1,
        _ => 4,
    }
}

/// Unit in which the swap copies pages.
pub open spec fn swap_page_size(mode: SwapMode) -> int {
    if mode == SwapMode::DfuExt {
        EXT_SWAP_PAGE_SIZE as int
    } else {
        PAGE_SIZE as int
    }
}

/// Law: the state partition has room for the magic word, the validity
/// word and the progress words of a swap and of a revert (two words per
/// swap page each). This fails for an RP2040 with 16 MB of flash using an
/// internal DFU partition, which is left out.
pub proof fn lemma_progress_fits(t: Target)
    requires
        t.mode != SwapMode::NoSwap,
        !(t.platform == Platform::Rp2040(RpFlash::Mb16) && t.mode == SwapMode::Swap),
    ensures
        2 + 4 * (layout_spec(t).active_size as int / swap_page_size(t.mode)) <= layout_spec(
            t,
        ).state_size as int / state_write_size(t.platform),
{
    let l = layout_spec(t);
    match t.platform {
        Platform::Rp2040(f) => {
            assert(l.state_size as int / 1 == 4096);
            if t.mode == SwapMode::Swap {
                match f {
                    RpFlash::Mb2 => assert(l.active_size as int / 4096 == 248),
                    RpFlash::Mb4 => assert(l.active_size as int / 4096 == 504),
                    RpFlash::Mb8 => assert(l.active_size as int / 4096 == 1016),
                    RpFlash::Mb16 => {},
                }
            } else {
                match f {
                    RpFlash::Mb2 => assert(l.active_size as int / 65536 == 31),
                    RpFlash::Mb4 => assert(l.active_size as int / 65536 == 63),
                    RpFlash::Mb8 => assert(l.active_size as int / 65536 == 127),
                    RpFlash::Mb16 => assert(l.active_size as int / 65536 == 255),
                }
            }
        },
        _ => {
            assert(l.state_size as int / 4 == 1024);
        },
    }
}

/// Law: the application's linker values describe the same state, active
/// and storage partitions as the bootloader's layout, and name its DFU
/// partition exactly when the swap uses an internal one.
pub proof fn lemma_app_matches_layout(t: Target)
    ensures
        ({
            let l = layout_spec(t);
            let a = app_linker_spec(t);
            let b = boot_linker_spec(t);
            &&& a.flash_origin == l.flash_base + l.active_offset
            &&& a.flash_length == l.active_size
            &&& a.state_start == b.state_start && a.state_end == b.state_end
            &&& a.active_start == b.active_start && a.active_end == b.active_end
            &&& a.storage_start == l.storage_offset
            &&& a.storage_end == l.storage_offset + l.storage_size
            &&& t.mode == SwapMode::Swap ==> a.dfu_start == b.dfu_start && a.dfu_end == b.dfu_end
            &&& t.mode != SwapMode::Swap ==> a.dfu_start == 0 && a.dfu_end == 0
        }),
{
}

/// The application linker values of a target.
pub fn app_linker_layout(t: Target) -> (r: AppLinkerLayout)
    ensures
        r == app_linker_spec(t),
{
    let l = compute_layout(t);
    proof {
        lemma_layout_partitions(t);
    }
    let internal_dfu = match t.mode {
        SwapMode::Swap => true,
        _ => false,
    };
    build_rmk_boot_x(
        l.flash_base + l.active_offset,
        l.active_size,
        l.state_offset,
        l.state_size,
        if internal_dfu { l.dfu_offset } else { 0 },
        if internal_dfu { l.dfu_size } else { 0 },
        l.storage_offset,
        l.storage_size,
        l.flash_base,
        l.ram_size,
    )
}

/// The bootloader's own partition symbols of a target.
pub fn boot_linker_layout(t: Target) -> (r: BootLinkerLayout)
    ensures
        r == boot_linker_spec(t),
{
    let l = compute_layout(t);
    proof {
        lemma_layout_partitions(t);
    }
    let dfu_is_active = match (t.mode, t.platform) {
        (SwapMode::Swap, _) => false,
        (_, Platform::Rp2040(_)) => false,
        _ => true,
    };
    BootLinkerLayout {
        state_start: l.state_offset,
        state_end: l.state_offset + l.state_size,
        active_start: l.active_offset,
        active_end: l.active_offset + l.active_size,
        dfu_start: if dfu_is_active { l.active_offset } else { l.dfu_offset },
        dfu_end: if dfu_is_active {
            l.active_offset + l.active_size
        } else {
            l.dfu_offset + l.dfu_size
        },
    }
}

/// Law: each RP2040 flash-size feature, enabled alone with `rp2040`,
/// resolves to a board of exactly that flash size (N MiB for the N MB
/// feature); each nRF52 feature resolves to its own chip (1 MiB of flash and
/// 256 KiB of RAM for the nRF52840, 512 KiB and 128 KiB for the nRF52833);
/// and the mode and logging follow `noswap`, `dfu_ext` and `defmt`.
pub proof fn lemma_resolve_selects_features(f: Features)
    requires
        !(f.noswap && f.dfu_ext),
        (f.rp2040 && !f.nrf52840 && !f.nrf52833 && flash_size_count(f) == 1) || (!f.rp2040 && (
        f.nrf52840 != f.nrf52833)),
    ensures
        resolve_spec(f) is Ok,
        ({
            let t = resolve_spec(f)->Ok_0;
            &&& f.rp2040_2mb && f.rp2040 ==> t.platform is Rp2040 && flash_size_of(t.platform)
                == 2 * 1024 * 1024
            &&& f.rp2040_4mb && f.rp2040 ==> t.platform is Rp2040 && flash_size_of(t.platform)
                == 4 * 1024 * 1024
            &&& f.rp2040_8mb && f.rp2040 ==> t.platform is Rp2040 && flash_size_of(t.platform)
                == 8 * 1024 * 1024
            &&& f.rp2040_16mb && f.rp2040 ==> t.platform is Rp2040 && flash_size_of(t.platform)
                == 16 * 1024 * 1024
            &&& f.nrf52840 ==> t.platform == Platform::Nrf52840 && layout_spec(t).flash_size
                == 1024 * 1024 && layout_spec(t).ram_size == 256 * 1024
            &&& f.nrf52833 ==> t.platform == Platform::Nrf52833 && layout_spec(t).flash_size
                == 512 * 1024 && layout_spec(t).ram_size == 128 * 1024
            &&& f.rp2040 ==> layout_spec(t).flash_size == flash_size_of(t.platform)
                && layout_spec(t).flash_base == 0x1000_0000 && layout_spec(t).ram_size == 256
                * 1024
            &&& (t.mode == SwapMode::NoSwap <==> f.noswap)
            &&& (t.mode == SwapMode::DfuExt <==> f.dfu_ext)
            &&& t.defmt == f.defmt
        }),
{
}

/// Law: the bootloader region before the state partition is 32 KiB on an
/// nRF52 chip built with logging and 24 KiB otherwise (always on RP2040);
/// the 4 KiB state partition follows it and the active partition follows
/// that.
pub proof fn lemma_bootloader_region(t: Target)
    ensures
        layout_spec(t).bootloader_size == (if t.platform !is Rp2040 && t.defmt {
            32768u32
        } else {
            24576u32
        }),
        layout_spec(t).state_offset == layout_spec(t).bootloader_size,
        layout_spec(t).state_size == 4096,
        layout_spec(t).active_offset == layout_spec(t).bootloader_size + 4096,
{
}

/// Law: the bootloader's own DFU symbols: on an nRF52 chip without an
/// internal DFU partition they cover exactly the active partition (updates
/// are written in place); with one they cover the region right after the
/// active partition, one page larger than it; on RP2040 they always start
/// where the active partition ends. The state and active symbols are the
/// layout's partitions.
pub proof fn lemma_boot_dfu_symbols(t: Target)
    ensures
        ({
            let b = boot_linker_spec(t);
            let l = layout_spec(t);
            &&& b.state_start == l.state_offset && b.state_end == l.state_offset + l.state_size
            &&& b.active_start == l.active_offset && b.active_end == l.active_offset
                + l.active_size
            &&& (t.platform !is Rp2040 && t.mode != SwapMode::Swap) ==> b.dfu_start
                == b.active_start && b.dfu_end == b.active_end
            &&& t.mode == SwapMode::Swap ==> b.dfu_start == b.active_end && b.dfu_end
                - b.dfu_start == b.active_end - b.active_start + PAGE_SIZE
            &&& t.platform is Rp2040 ==> b.dfu_start == b.active_end
        }),
{
    lemma_layout_partitions(t);
    lemma_dfu_partition_size(t);
}

} // verus!
