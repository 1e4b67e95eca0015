use migrator::defs::{BootType, OSArch, UEnvStrategy};
use migrator::device_profile::{boot_config_files, find_device, lookup, Device, MIN_DRIVE_SIZE};
use migrator::error::MigErrorKind;

#[test]
fn raspberry_pi_3_is_known_by_its_model() {
    let p = lookup(OSArch::ARMHF, Some("Raspberry Pi 3 Model B Rev 1.2"), false).unwrap();
    assert_eq!(p.device, Device::RaspberryPi3);
    assert_eq!(p.slug, "raspberrypi3");
    assert_eq!(p.supported_boot_types, vec![BootType::Raspi]);
    assert_eq!(p.required_kernel_arch, OSArch::ARMHF);
    assert_eq!(p.min_drive_size, MIN_DRIVE_SIZE);
    assert_eq!(MIN_DRIVE_SIZE, 4 * 1024 * 1024 * 1024);
    assert_eq!(p.boot_layout_hints, vec![String::from("config.txt"), String::from("cmdline.txt")]);
}

#[test]
fn other_boards_are_known_by_their_models() {
    assert_eq!(find_device(OSArch::ARMHF, Some("Raspberry Pi 2 Model B Rev 1.1")), Some(Device::RaspberryPi2));
    assert_eq!(find_device(OSArch::ARMHF, Some("Raspberry Pi 4 Model B Rev 1.1")), Some(Device::RaspberryPi4));
    assert_eq!(find_device(OSArch::ARMHF, Some("TI AM335x BeagleBone Black")), Some(Device::BeagleboneBlack));
    assert_eq!(find_device(OSArch::ARMHF, Some("TI AM335x BeagleBone Green Wireless")), Some(Device::BeagleboneGreen));
    assert_eq!(Device::RaspberryPi2.slug(), "raspberry-pi2");
    assert_eq!(Device::RaspberryPi4.slug(), "raspberrypi4-64");
    assert_eq!(Device::BeagleboneBlack.slug(), "beaglebone-black");
    assert_eq!(Device::BeagleboneGreen.slug(), "beaglebone-green");
    assert_eq!(Device::RaspberryPi4.boot_type(false), BootType::Raspi64);
    assert_eq!(
        Device::BeagleboneGreen.boot_type(true),
        BootType::UBoot { mmc_index: 1, uenv_strategy: UEnvStrategy::Manual, bootmgr_subpath: String::new() }
    );
    assert_eq!(Device::BeagleboneBlack.kernel_arch(), OSArch::ARMHF);
}

#[test]
fn a_pc_boots_through_grub_or_efi() {
    let p = lookup(OSArch::AMD64, None, false).unwrap();
    assert_eq!(p.device, Device::IntelNuc);
    assert_eq!(p.slug, "intel-nuc");
    assert_eq!(p.supported_boot_types, vec![BootType::Grub]);
    assert_eq!(p.required_kernel_arch, OSArch::AMD64);
    assert_eq!(p.boot_layout_hints, vec![String::from("/etc/grub.d/43_balena-migrate")]);
    let p = lookup(OSArch::AMD64, Some("whatever"), true).unwrap();
    assert_eq!(p.supported_boot_types, vec![BootType::Efi]);
    assert!(p.boot_layout_hints.is_empty());
    let uboot = BootType::UBoot { mmc_index: 1, uenv_strategy: UEnvStrategy::Manual, bootmgr_subpath: String::from("uboot") };
    assert_eq!(boot_config_files(&uboot), vec![String::from("uboot/uEnv.txt")]);
    assert_eq!(boot_config_files(&Device::BeagleboneBlack.boot_type(false)), vec![String::from("uEnv.txt")]);
}

#[test]
fn unknown_hardware_is_unsupported() {
    assert_eq!(lookup(OSArch::ARMHF, Some("Raspberry Pi Model B Rev 2"), false).unwrap_err().kind(), MigErrorKind::Unsupported);
    assert_eq!(lookup(OSArch::ARMHF, Some("Raspberry Pi 3"), false).unwrap_err().kind(), MigErrorKind::Unsupported);
    assert_eq!(lookup(OSArch::ARMHF, None, false).unwrap_err().kind(), MigErrorKind::Unsupported);
    assert_eq!(lookup(OSArch::ARMHF, Some(""), false).unwrap_err().kind(), MigErrorKind::Unsupported);
    assert_eq!(lookup(OSArch::I386, Some("Raspberry Pi 3 Model B"), false).unwrap_err().kind(), MigErrorKind::Unsupported);
    assert_eq!(find_device(OSArch::I386, None), None);
}
