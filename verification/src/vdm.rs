//! Vendor defined messages: sizes and the structured VDM command catalog.
use vstd::prelude::*;

verus! {

/// Size in bytes of one VDM data object.
pub const PD_VDM_DATA_OBJ_SIZE: usize = 4;

/// Largest number of vendor data objects that follow a VDM header.
pub const PD_VDM_MAX_VDOS: usize = 6;

/// Largest number of data objects in a VDM, the header included.
pub const PD_VDM_MAX_NUM_DATA_OBJECTS: usize = 7;

/// Largest size in bytes of a VDM.
pub const PD_VDM_MAX_SIZE: usize = PD_VDM_DATA_OBJ_SIZE * PD_VDM_MAX_NUM_DATA_OBJECTS;

/// Object position that stands for all modes.
pub const PD_VDM_OBJ_POS_ALL_MODES: u8 = 7;

/// Structured VDM header version.
pub const PD_VDM_HEADER_VERSION: u8 = 1;

/// SVDM header commands.
///
/// The catalog is closed: each command has one discriminant, fixed by USB
/// Power Delivery, and no discriminant names two commands.
#[derive(Copy, Clone, Debug, PartialEq, Eq, Structural)]
pub enum VdmCmd {
    /// Discover Id
    DiscId,
    /// Discover SVIDs
    DiscSvid,
    /// Discover Mode
    DiscMode,
    /// Enter mode
    EnterMode,
    /// Exit mode
    ExitMode,
    /// Attention
    Attention,
    /// Custom vendor SVID Commands Start here
    SvidCmdStart,
}

impl VdmCmd {
    /// The discriminant of a command.
    pub open spec fn spec_discriminant(self) -> u8 {
        match self {
            VdmCmd::DiscId => 1,
            VdmCmd::DiscSvid => 2,
            VdmCmd::DiscMode => 3,
            VdmCmd::EnterMode => 4,
            VdmCmd::ExitMode => 5,
            VdmCmd::Attention => 6,
            VdmCmd::SvidCmdStart => 16,
        }
    }

    /// The command that a discriminant names, if it names one.
    pub open spec fn spec_from_discriminant(value: u8) -> Option<VdmCmd> {
        if value == 1 {
            Some(VdmCmd::DiscId)
        } else if value == 2 {
            Some(VdmCmd::DiscSvid)
        } else if value == 3 {
            Some(VdmCmd::DiscMode)
        } else if value == 4 {
            Some(VdmCmd::EnterMode)
        } else if value == 5 {
            Some(VdmCmd::ExitMode)
        } else if value == 6 {
            Some(VdmCmd::Attention)
        } else if value == 16 {
            Some(VdmCmd::SvidCmdStart)
        } else {
            None
        }
    }

    /// Returns the discriminant of the command.
    pub fn discriminant(self) -> (value: u8)
        ensures
            value == self.spec_discriminant(),
    {
        match self {
            VdmCmd::DiscId => 1,
            VdmCmd::DiscSvid => 2,
            VdmCmd::DiscMode => 3,
            VdmCmd::EnterMode => 4,
            VdmCmd::ExitMode => 5,
            VdmCmd::Attention => 6,
            VdmCmd::SvidCmdStart => 16,
        }
    }

    /// Looks a discriminant up in the catalog.
    pub fn from_discriminant(value: u8) -> (found: Option<VdmCmd>)
        ensures
            found == VdmCmd::spec_from_discriminant(value),
            found matches Some(cmd) ==> cmd.spec_discriminant() == value,
            found is None <==> forall|cmd: VdmCmd| cmd.spec_discriminant() != value,
    {
        match value {
            1 => Some(VdmCmd::DiscId),
            2 => Some(VdmCmd::DiscSvid),
            3 => Some(VdmCmd::DiscMode),
            4 => Some(VdmCmd::EnterMode),
            5 => Some(VdmCmd::ExitMode),
            6 => Some(VdmCmd::Attention),
            16 => Some(VdmCmd::SvidCmdStart),
            _ => None,
        }
    }

    /// Every command is found again under its own discriminant, so no two
    /// commands share one.
    pub proof fn lemma_discriminant_round_trip(self)
        ensures
            VdmCmd::spec_from_discriminant(self.spec_discriminant()) == Some(self),
    {
    }
}

} // verus!
