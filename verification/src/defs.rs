//! Definitions shared by the components.

use vstd::prelude::*;

verus! {

/// The directory that lists partitions by their UUID.
pub const DISK_BY_PARTUUID_PATH: &'static str = "/dev/disk/by-partuuid";

/// The architecture of the processor.
#[derive(Clone, Copy, Debug, PartialEq, Eq, Structural)]
pub enum OSArch {
    AMD64,
    ARMHF,
    I386,
}

/// What stage 2 does after a failure.
#[derive(Clone, Copy, Debug, PartialEq, Eq, Structural)]
pub enum FailMode {
    Reboot,
    RescueShell,
    Poweroff,
}


/// How verbose the log of stage 2 is.
#[derive(Clone, Copy, Debug, PartialEq, Eq, Structural)]
pub enum LogLevel {
    Error,
    Warn,
    Info,
    Debug,
    Trace,
}

/// How the U-Boot environment file is composed.
#[derive(Debug, PartialEq, Eq)]
pub enum UEnvStrategy {
    /// Pinned to the kernel with the given release name.
    UName(String),
    /// Composed by hand.
    Manual,
}

/// The mathematical content of a `UEnvStrategy`.
pub enum UEnvStrategyView {
    UName(Seq<char>),
    Manual,
}

impl View for UEnvStrategy {
    type V = UEnvStrategyView;

    open spec fn view(&self) -> UEnvStrategyView {
        match self {
            UEnvStrategy::UName(n) => UEnvStrategyView::UName(n@),
            UEnvStrategy::Manual => UEnvStrategyView::Manual,
        }
    }
}

impl Clone for UEnvStrategy {
    fn clone(&self) -> (r: Self)
        ensures
            r == *self,
    {
        match self {
            UEnvStrategy::UName(n) => UEnvStrategy::UName(n.clone()),
            UEnvStrategy::Manual => UEnvStrategy::Manual,
        }
    }
}

/// The boot loader family of a host.
#[derive(Debug, PartialEq, Eq)]
pub enum BootType {
    UBoot { mmc_index: u8, uenv_strategy: UEnvStrategy, bootmgr_subpath: String },
    Grub,
    Efi,
    MSWEfi,
    Raspi,
    Raspi64,
    MSWBootMgr,
}

/// The mathematical content of a `BootType`.
pub enum BootTypeView {
    UBoot { mmc_index: u8, uenv_strategy: UEnvStrategyView, bootmgr_subpath: Seq<char> },
    Grub,
    Efi,
    MSWEfi,
    Raspi,
    Raspi64,
    MSWBootMgr,
}

impl View for BootType {
    type V = BootTypeView;

    open spec fn view(&self) -> BootTypeView {
        match self {
            BootType::UBoot { mmc_index, uenv_strategy, bootmgr_subpath } => BootTypeView::UBoot {
                mmc_index: *mmc_index,
                uenv_strategy: uenv_strategy@,
                bootmgr_subpath: bootmgr_subpath@,
            },
            BootType::Grub => BootTypeView::Grub,
            BootType::Efi => BootTypeView::Efi,
            BootType::MSWEfi => BootTypeView::MSWEfi,
            BootType::Raspi => BootTypeView::Raspi,
            BootType::Raspi64 => BootTypeView::Raspi64,
            BootType::MSWBootMgr => BootTypeView::MSWBootMgr,
        }
    }
}

impl Clone for BootType {
    fn clone(&self) -> (r: Self)
        ensures
            r == *self,
    {
        match self {
            BootType::UBoot { mmc_index, uenv_strategy, bootmgr_subpath } => BootType::UBoot {
                mmc_index: *mmc_index,
                uenv_strategy: uenv_strategy.clone(),
                bootmgr_subpath: bootmgr_subpath.clone(),
            },
            BootType::Grub => BootType::Grub,
            BootType::Efi => BootType::Efi,
            BootType::MSWEfi => BootType::MSWEfi,
            BootType::Raspi => BootType::Raspi,
            BootType::Raspi64 => BootType::Raspi64,
            BootType::MSWBootMgr => BootType::MSWBootMgr,
        }
    }
}

} // verus!
