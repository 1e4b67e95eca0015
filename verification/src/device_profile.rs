//! The devices that can be migrated. A device is known by the
//! architecture of its processor and by the model that its device tree
//! names.

use vstd::prelude::*;
use vstd::string::*;

use crate::defs::{BootType, BootTypeView, OSArch, UEnvStrategy, UEnvStrategyView};
use crate::error::{MigError, MigErrorKind};
use crate::boot_manager::{
    join_path, path_join, GRUB_ENTRY_FILE, RASPI_CMDLINE_FILE, RASPI_CONFIG_FILE, UENV_FILE,
};
use crate::text::{chars_of, strings_view};

verus! {

/// The smallest drive, in bytes, that holds an appliance image.
pub const MIN_DRIVE_SIZE: u64 = 4294967296;

/// A device that can be migrated.
#[derive(Clone, Copy, Debug, PartialEq, Eq, Structural)]
pub enum Device {
    RaspberryPi2,
    RaspberryPi3,
    RaspberryPi4,
    BeagleboneBlack,
    BeagleboneGreen,
    IntelNuc,
}

/// Whether the first characters of `model` are those of `start`.
pub open spec fn begins_with(model: Seq<char>, start: Seq<char>) -> bool {
    start.is_prefix_of(model)
}

/// The device with the given architecture and device tree model, where it
/// can be migrated. Every 64 bit PC counts as an Intel NUC.
pub open spec fn device_for(arch: OSArch, model: Option<Seq<char>>) -> Option<Device> {
    match arch {
        OSArch::AMD64 => Some(Device::IntelNuc),
        OSArch::I386 => None,
        OSArch::ARMHF => match model {
            None => None,
            Some(m) => if begins_with(m, "Raspberry Pi 2 Model B"@) {
                Some(Device::RaspberryPi2)
            } else if begins_with(m, "Raspberry Pi 3 Model B"@) {
                Some(Device::RaspberryPi3)
            } else if begins_with(m, "Raspberry Pi 4 Model B"@) {
                Some(Device::RaspberryPi4)
            } else if begins_with(m, "TI AM335x BeagleBone Black"@) {
                Some(Device::BeagleboneBlack)
            } else if begins_with(m, "TI AM335x BeagleBone Green"@) {
                Some(Device::BeagleboneGreen)
            } else {
                None
            },
        },
    }
}

impl Device {
    /// The slug of the device.
    pub open spec fn slug_spec(self) -> Seq<char> {
        match self {
            Device::RaspberryPi2 => "raspberry-pi2"@,
            Device::RaspberryPi3 => "raspberrypi3"@,
            Device::RaspberryPi4 => "raspberrypi4-64"@,
            Device::BeagleboneBlack => "beaglebone-black"@,
            Device::BeagleboneGreen => "beaglebone-green"@,
            Device::IntelNuc => "intel-nuc"@,
        }
    }

    /// The boot type of the device: that of its firmware; for a PC, EFI
    /// where the host was started through it and GRUB where not.
    pub open spec fn boot_type_spec(self, efi_boot: bool) -> BootTypeView {
        match self {
            Device::RaspberryPi2 => BootTypeView::Raspi,
            Device::RaspberryPi3 => BootTypeView::Raspi,
            Device::RaspberryPi4 => BootTypeView::Raspi64,
            Device::BeagleboneBlack => BootTypeView::UBoot {
                mmc_index: 1,
                uenv_strategy: UEnvStrategyView::Manual,
                bootmgr_subpath: Seq::empty(),
            },
            Device::BeagleboneGreen => BootTypeView::UBoot {
                mmc_index: 1,
                uenv_strategy: UEnvStrategyView::Manual,
                bootmgr_subpath: Seq::empty(),
            },
            Device::IntelNuc => if efi_boot {
                BootTypeView::Efi
            } else {
                BootTypeView::Grub
            },
        }
    }

    /// The architecture that the kernel of stage 2 must be built for.
    pub open spec fn kernel_arch_spec(self) -> OSArch {
        match self {
            Device::IntelNuc => OSArch::AMD64,
            _ => OSArch::ARMHF,
        }
    }

    /// The slug of the device.
    pub fn slug(&self) -> (r: &'static str)
        ensures
            r@ == self.slug_spec(),
    {
        match self {
            Device::RaspberryPi2 => "raspberry-pi2",
            Device::RaspberryPi3 => "raspberrypi3",
            Device::RaspberryPi4 => "raspberrypi4-64",
            Device::BeagleboneBlack => "beaglebone-black",
            Device::BeagleboneGreen => "beaglebone-green",
            Device::IntelNuc => "intel-nuc",
        }
    }

    /// The boot type of the device.
    pub fn boot_type(&self, efi_boot: bool) -> (r: BootType)
        ensures
            r@ == self.boot_type_spec(efi_boot),
    {
        match self {
            Device::RaspberryPi2 => BootType::Raspi,
            Device::RaspberryPi3 => BootType::Raspi,
            Device::RaspberryPi4 => BootType::Raspi64,
            Device::BeagleboneBlack => BootType::UBoot {
                mmc_index: 1,
                uenv_strategy: UEnvStrategy::Manual,
                bootmgr_subpath: String::new(),
            },
            Device::BeagleboneGreen => BootType::UBoot {
                mmc_index: 1,
                uenv_strategy: UEnvStrategy::Manual,
                bootmgr_subpath: String::new(),
            },
            Device::IntelNuc => if efi_boot {
                BootType::Efi
            } else {
                BootType::Grub
            },
        }
    }

    /// The architecture that the kernel of stage 2 must be built for.
    pub fn kernel_arch(&self) -> (r: OSArch)
        ensures
            r == self.kernel_arch_spec(),
    {
        match self {
            Device::IntelNuc => OSArch::AMD64,
            _ => OSArch::ARMHF,
        }
    }
}

/// What is known of a device that can be migrated.
#[derive(Debug, PartialEq, Eq)]
pub struct DeviceProfile {
    /// The device.
    pub device: Device,
    /// The slug of the device.
    pub slug: String,
    /// The boot types of the device; the migration uses the first.
    pub supported_boot_types: Vec<BootType>,
    /// The architecture that the kernel of stage 2 must be built for.
    pub required_kernel_arch: OSArch,
    /// The smallest drive, in bytes, that an appliance image fits on.
    pub min_drive_size: u64,
    /// The boot configuration files of the first boot type: their names
    /// below the directory of the boot files, or their paths.
    pub boot_layout_hints: Vec<String>,
}

/// The boot configuration files of a boot type, in the order in which its
/// boot manager changes them.
pub open spec fn layout_hints(bt: BootTypeView) -> Seq<Seq<char>> {
    match bt {
        BootTypeView::UBoot { mmc_index, uenv_strategy, bootmgr_subpath } => seq![
            if bootmgr_subpath.len() == 0 {
                UENV_FILE@
            } else {
                join_path(bootmgr_subpath, UENV_FILE@)
            },
        ],
        BootTypeView::Grub => seq![GRUB_ENTRY_FILE@],
        BootTypeView::Raspi | BootTypeView::Raspi64 => seq![
            RASPI_CONFIG_FILE@,
            RASPI_CMDLINE_FILE@,
        ],
        _ => Seq::empty(),
    }
}

/// The boot configuration files of a boot type: see `layout_hints`.
pub fn boot_config_files(bt: &BootType) -> (r: Vec<String>)
    ensures
        strings_view(r@) == layout_hints(bt@),
{
    let mut out: Vec<String> = Vec::new();
    match bt {
        BootType::UBoot { mmc_index, uenv_strategy, bootmgr_subpath } => {
            if bootmgr_subpath.as_str().is_empty() {
                out.push(String::from_str(UENV_FILE));
            } else {
                out.push(path_join(bootmgr_subpath.as_str(), UENV_FILE));
            }
        },
        BootType::Grub => {
            out.push(String::from_str(GRUB_ENTRY_FILE));
        },
        BootType::Raspi => {
            out.push(String::from_str(RASPI_CONFIG_FILE));
            out.push(String::from_str(RASPI_CMDLINE_FILE));
        },
        BootType::Raspi64 => {
            out.push(String::from_str(RASPI_CONFIG_FILE));
            out.push(String::from_str(RASPI_CMDLINE_FILE));
        },
        _ => {},
    }
    assert(strings_view(out@) =~= layout_hints(bt@));
    out
}

/// Whether the first characters of `model` are those of `start`.
fn has_start(model: &Vec<char>, start: &str) -> (r: bool)
    ensures
        r == begins_with(model@, start@),
{
    let s = chars_of(start);
    if s.len() > model.len() {
        return false;
    }
    let mut i: usize = 0;
    while i < s.len()
        invariant
            i <= s.len() <= model.len(),
            s@ == start@,
            forall|j: int| 0 <= j < i ==> s@[j] == model@[j],
        decreases s.len() - i,
    {
        if s[i] != model[i] {
            assert(s@[i as int] != model@.subrange(0, s@.len() as int)[i as int]);
            return false;
        }
        i += 1;
    }
    assert(s@ =~= model@.subrange(0, s@.len() as int));
    true
}

/// The device with the given architecture and device tree model: see
/// `device_for`.
pub fn find_device(arch: OSArch, model: Option<&str>) -> (r: Option<Device>)
    ensures
        r == device_for(
            arch,
            match model {
                Some(m) => Some(m@),
                None => None,
            },
        ),
{
    match arch {
        OSArch::AMD64 => Some(Device::IntelNuc),
        OSArch::I386 => None,
        OSArch::ARMHF => match model {
            None => None,
            Some(m) => {
                let chars = chars_of(m);
                if has_start(&chars, "Raspberry Pi 2 Model B") {
                    Some(Device::RaspberryPi2)
                } else if has_start(&chars, "Raspberry Pi 3 Model B") {
                    Some(Device::RaspberryPi3)
                } else if has_start(&chars, "Raspberry Pi 4 Model B") {
                    Some(Device::RaspberryPi4)
                } else if has_start(&chars, "TI AM335x BeagleBone Black") {
                    Some(Device::BeagleboneBlack)
                } else if has_start(&chars, "TI AM335x BeagleBone Green") {
                    Some(Device::BeagleboneGreen)
                } else {
                    None
                }
            },
        },
    }
}

/// The profile of the device with the given architecture and device tree
/// model, on a host that was or was not started through EFI;
/// `Unsupported` where the device cannot be migrated.
pub fn lookup(arch: OSArch, model: Option<&str>, efi_boot: bool) -> (r: Result<
    DeviceProfile,
    MigError,
>)
    ensures
        match r {
            Ok(p) => {
                &&& device_for(
                    arch,
                    match model {
                        Some(m) => Some(m@),
                        None => None,
                    },
                ) == Some(p.device)
                &&& p.slug@ == p.device.slug_spec()
                &&& p.supported_boot_types@.len() == 1
                &&& p.supported_boot_types@[0]@ == p.device.boot_type_spec(efi_boot)
                &&& p.required_kernel_arch == p.device.kernel_arch_spec()
                &&& p.min_drive_size == MIN_DRIVE_SIZE
                &&& strings_view(p.boot_layout_hints@) == layout_hints(
                    p.device.boot_type_spec(efi_boot),
                )
            },
            Err(e) => e.spec_kind() == MigErrorKind::Unsupported && device_for(
                arch,
                match model {
                    Some(m) => Some(m@),
                    None => None,
                },
            ) is None,
        },
{
    match find_device(arch, model) {
        Some(device) => {
            let mut boot_types: Vec<BootType> = Vec::new();
            let boot_type = device.boot_type(efi_boot);
            let hints = boot_config_files(&boot_type);
            boot_types.push(boot_type);
            Ok(
                DeviceProfile {
                    device,
                    slug: String::from_str(device.slug()),
                    supported_boot_types: boot_types,
                    required_kernel_arch: device.kernel_arch(),
                    min_drive_size: MIN_DRIVE_SIZE,
                    boot_layout_hints: hints,
                },
            )
        },
        None => Err(MigError::from_remark(MigErrorKind::Unsupported, "the device is not supported")),
    }
}

} // verus!
