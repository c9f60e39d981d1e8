//! Opcodes, mode bytes and status codes of the ST-Link command protocol,
//! and the fixed tables mapping wire frequencies to the discrete divider and
//! delay values the probe accepts.

use vstd::prelude::*;

verus! {

// Top-level command opcodes.
pub const GET_VERSION: u8 = 0xf1;
pub const JTAG_COMMAND: u8 = 0xf2;
pub const DFU_COMMAND: u8 = 0xf3;
pub const SWIM_COMMAND: u8 = 0xf4;
pub const GET_CURRENT_MODE: u8 = 0xf5;
pub const GET_TARGET_VOLTAGE: u8 = 0xf7;
pub const GET_VERSION_EXT: u8 = 0xfb;

// Modes reported by GET_CURRENT_MODE.
pub const DEV_DFU_MODE: u8 = 0x00;
pub const DEV_MASS_MODE: u8 = 0x01;
pub const DEV_JTAG_MODE: u8 = 0x02;
pub const DEV_SWIM_MODE: u8 = 0x03;

// DFU and SWIM sub-commands.
pub const DFU_EXIT: u8 = 0x07;
pub const SWIM_EXIT: u8 = 0x01;

// JTAG sub-commands.
pub const JTAG_READMEM_32BIT: u8 = 0x07;
pub const JTAG_WRITEMEM_32BIT: u8 = 0x08;
pub const JTAG_READMEM_8BIT: u8 = 0x0c;
pub const JTAG_WRITEMEM_8BIT: u8 = 0x0d;
pub const JTAG_EXIT: u8 = 0x21;
pub const JTAG_ENTER2: u8 = 0x30;
pub const JTAG_DRIVE_NRST: u8 = 0x3c;
pub const JTAG_GETLASTRWSTATUS2: u8 = 0x3e;
pub const SWD_SET_FREQ: u8 = 0x43;
pub const JTAG_SET_FREQ: u8 = 0x44;
pub const JTAG_READ_DAP_REG: u8 = 0x45;
pub const JTAG_WRITE_DAP_REG: u8 = 0x46;
pub const JTAG_READMEM_16BIT: u8 = 0x47;
pub const JTAG_WRITEMEM_16BIT: u8 = 0x48;
pub const JTAG_INIT_AP: u8 = 0x4b;
pub const JTAG_CLOSE_AP_DBG: u8 = 0x4c;

// Parameters of JTAG_ENTER2.
pub const JTAG_ENTER_SWD: u8 = 0xa3;
pub const JTAG_ENTER_JTAG_NO_CORE_RESET: u8 = 0xa4;

// Parameters of JTAG_DRIVE_NRST.
pub const JTAG_DRIVE_NRST_LOW: u8 = 0x00;
pub const JTAG_DRIVE_NRST_HIGH: u8 = 0x01;
pub const JTAG_DRIVE_NRST_PULSE: u8 = 0x02;

// Parameter of JTAG_INIT_AP.
pub const JTAG_AP_NO_CORE: u8 = 0x00;

// Status codes returned by the probe.
pub const STATUS_JTAG_OK: u8 = 0x80;
pub const STATUS_JTAG_UNKNOWN_ERROR: u8 = 0x01;
pub const STATUS_SWD_AP_FAULT: u8 = 0x11;
pub const STATUS_SWD_DP_FAULT: u8 = 0x15;

/// A supported SWD wire frequency, sent to the probe as a delay count.
#[derive(Clone, Copy, PartialEq, Eq, Structural, Debug)]
pub enum SwdFrequencyToDelayCount {
    Hz4600000,
    Hz1800000,
    Hz1200000,
    Hz950000,
    Hz650000,
    Hz480000,
    Hz400000,
    Hz360000,
    Hz240000,
    Hz150000,
    Hz125000,
    Hz100000,
}

/// A supported JTAG wire frequency, sent to the probe as a clock divider.
#[derive(Clone, Copy, PartialEq, Eq, Structural, Debug)]
pub enum JTagFrequencyToDivider {
    Hz18000000,
    Hz9000000,
    Hz4500000,
    Hz2250000,
    Hz1120000,
    Hz560000,
    Hz280000,
}

impl SwdFrequencyToDelayCount {
    /// The frequency of this table entry in Hz.
    pub open spec fn spec_hz(self) -> u32 {
        match self {
            SwdFrequencyToDelayCount::Hz4600000 => 4600000,
            SwdFrequencyToDelayCount::Hz1800000 => 1800000,
            SwdFrequencyToDelayCount::Hz1200000 => 1200000,
            SwdFrequencyToDelayCount::Hz950000 => 950000,
            SwdFrequencyToDelayCount::Hz650000 => 650000,
            SwdFrequencyToDelayCount::Hz480000 => 480000,
            SwdFrequencyToDelayCount::Hz400000 => 400000,
            SwdFrequencyToDelayCount::Hz360000 => 360000,
            SwdFrequencyToDelayCount::Hz240000 => 240000,
            SwdFrequencyToDelayCount::Hz150000 => 150000,
            SwdFrequencyToDelayCount::Hz125000 => 125000,
            SwdFrequencyToDelayCount::Hz100000 => 100000,
        }
    }

    /// The delay count the probe expects for this frequency.
    pub open spec fn spec_delay_count(self) -> u8 {
        match self {
            SwdFrequencyToDelayCount::Hz4600000 => 0,
            SwdFrequencyToDelayCount::Hz1800000 => 1,
            SwdFrequencyToDelayCount::Hz1200000 => 2,
            SwdFrequencyToDelayCount::Hz950000 => 3,
            SwdFrequencyToDelayCount::Hz650000 => 5,
            SwdFrequencyToDelayCount::Hz480000 => 7,
            SwdFrequencyToDelayCount::Hz400000 => 9,
            SwdFrequencyToDelayCount::Hz360000 => 10,
            SwdFrequencyToDelayCount::Hz240000 => 15,
            SwdFrequencyToDelayCount::Hz150000 => 25,
            SwdFrequencyToDelayCount::Hz125000 => 31,
            SwdFrequencyToDelayCount::Hz100000 => 40,
        }
    }

    /// The entry selected for a requested frequency: the fastest supported
    /// frequency not above the request, or the slowest entry when the request
    /// lies below the whole table.
    pub open spec fn spec_for_hz(requested: u32) -> SwdFrequencyToDelayCount {
        if requested >= 4600000 {
            SwdFrequencyToDelayCount::Hz4600000
        } else if requested >= 1800000 {
            SwdFrequencyToDelayCount::Hz1800000
        } else if requested >= 1200000 {
            SwdFrequencyToDelayCount::Hz1200000
        } else if requested >= 950000 {
            SwdFrequencyToDelayCount::Hz950000
        } else if requested >= 650000 {
            SwdFrequencyToDelayCount::Hz650000
        } else if requested >= 480000 {
            SwdFrequencyToDelayCount::Hz480000
        } else if requested >= 400000 {
            SwdFrequencyToDelayCount::Hz400000
        } else if requested >= 360000 {
            SwdFrequencyToDelayCount::Hz360000
        } else if requested >= 240000 {
            SwdFrequencyToDelayCount::Hz240000
        } else if requested >= 150000 {
            SwdFrequencyToDelayCount::Hz150000
        } else if requested >= 125000 {
            SwdFrequencyToDelayCount::Hz125000
        } else {
            SwdFrequencyToDelayCount::Hz100000
        }
    }

    /// Exec counterpart of [`Self::spec_delay_count`].
    pub fn delay_count(self) -> (r: u8)
        ensures
            r == self.spec_delay_count(),
    {
        match self {
            SwdFrequencyToDelayCount::Hz4600000 => 0,
            SwdFrequencyToDelayCount::Hz1800000 => 1,
            SwdFrequencyToDelayCount::Hz1200000 => 2,
            SwdFrequencyToDelayCount::Hz950000 => 3,
            SwdFrequencyToDelayCount::Hz650000 => 5,
            SwdFrequencyToDelayCount::Hz480000 => 7,
            SwdFrequencyToDelayCount::Hz400000 => 9,
            SwdFrequencyToDelayCount::Hz360000 => 10,
            SwdFrequencyToDelayCount::Hz240000 => 15,
            SwdFrequencyToDelayCount::Hz150000 => 25,
            SwdFrequencyToDelayCount::Hz125000 => 31,
            SwdFrequencyToDelayCount::Hz100000 => 40,
        }
    }

    /// Exec counterpart of [`Self::spec_for_hz`]: no supported frequency at
    /// or below the request beats the selected one.
    pub fn for_hz(requested: u32) -> (r: SwdFrequencyToDelayCount)
        ensures
            r == SwdFrequencyToDelayCount::spec_for_hz(requested),
            r.spec_hz() <= requested || requested < 100000,
            forall|e: SwdFrequencyToDelayCount| e.spec_hz() <= requested ==> e.spec_hz()
                <= r.spec_hz(),
    {
        if requested >= 4600000 {
            SwdFrequencyToDelayCount::Hz4600000
        } else if requested >= 1800000 {
            SwdFrequencyToDelayCount::Hz1800000
        } else if requested >= 1200000 {
            SwdFrequencyToDelayCount::Hz1200000
        } else if requested >= 950000 {
            SwdFrequencyToDelayCount::Hz950000
        } else if requested >= 650000 {
            SwdFrequencyToDelayCount::Hz650000
        } else if requested >= 480000 {
            SwdFrequencyToDelayCount::Hz480000
        } else if requested >= 400000 {
            SwdFrequencyToDelayCount::Hz400000
        } else if requested >= 360000 {
            SwdFrequencyToDelayCount::Hz360000
        } else if requested >= 240000 {
            SwdFrequencyToDelayCount::Hz240000
        } else if requested >= 150000 {
            SwdFrequencyToDelayCount::Hz150000
        } else if requested >= 125000 {
            SwdFrequencyToDelayCount::Hz125000
        } else {
            SwdFrequencyToDelayCount::Hz100000
        }
    }
}

impl JTagFrequencyToDivider {
    /// The frequency of this table entry in Hz.
    pub open spec fn spec_hz(self) -> u32 {
        match self {
            JTagFrequencyToDivider::Hz18000000 => 18000000,
            JTagFrequencyToDivider::Hz9000000 => 9000000,
            JTagFrequencyToDivider::Hz4500000 => 4500000,
            JTagFrequencyToDivider::Hz2250000 => 2250000,
            JTagFrequencyToDivider::Hz1120000 => 1120000,
            JTagFrequencyToDivider::Hz560000 => 560000,
            JTagFrequencyToDivider::Hz280000 => 280000,
        }
    }

    /// The clock divider the probe expects for this frequency.
    pub open spec fn spec_divider(self) -> u8 {
        match self {
            JTagFrequencyToDivider::Hz18000000 => 2,
            JTagFrequencyToDivider::Hz9000000 => 4,
            JTagFrequencyToDivider::Hz4500000 => 8,
            JTagFrequencyToDivider::Hz2250000 => 16,
            JTagFrequencyToDivider::Hz1120000 => 32,
            JTagFrequencyToDivider::Hz560000 => 64,
            JTagFrequencyToDivider::Hz280000 => 128,
        }
    }

    /// The entry selected for a requested frequency: the fastest supported
    /// frequency not above the request, or the slowest entry when the request
    /// lies below the whole table.
    pub open spec fn spec_for_hz(requested: u32) -> JTagFrequencyToDivider {
        if requested >= 18000000 {
            JTagFrequencyToDivider::Hz18000000
        } else if requested >= 9000000 {
            JTagFrequencyToDivider::Hz9000000
        } else if requested >= 4500000 {
            JTagFrequencyToDivider::Hz4500000
        } else if requested >= 2250000 {
            JTagFrequencyToDivider::Hz2250000
        } else if requested >= 1120000 {
            JTagFrequencyToDivider::Hz1120000
        } else if requested >= 560000 {
            JTagFrequencyToDivider::Hz560000
        } else {
            JTagFrequencyToDivider::Hz280000
        }
    }

    /// Exec counterpart of [`Self::spec_divider`].
    pub fn divider(self) -> (r: u8)
        ensures
            r == self.spec_divider(),
    {
        match self {
            JTagFrequencyToDivider::Hz18000000 => 2,
            JTagFrequencyToDivider::Hz9000000 => 4,
            JTagFrequencyToDivider::Hz4500000 => 8,
            JTagFrequencyToDivider::Hz2250000 => 16,
            JTagFrequencyToDivider::Hz1120000 => 32,
            JTagFrequencyToDivider::Hz560000 => 64,
            JTagFrequencyToDivider::Hz280000 => 128,
        }
    }

    /// Exec counterpart of [`Self::spec_for_hz`]: no supported frequency at
    /// or below the request beats the selected one.
    pub fn for_hz(requested: u32) -> (r: JTagFrequencyToDivider)
        ensures
            r == JTagFrequencyToDivider::spec_for_hz(requested),
            r.spec_hz() <= requested || requested < 280000,
            forall|e: JTagFrequencyToDivider| e.spec_hz() <= requested ==> e.spec_hz()
                <= r.spec_hz(),
    {
        if requested >= 18000000 {
            JTagFrequencyToDivider::Hz18000000
        } else if requested >= 9000000 {
            JTagFrequencyToDivider::Hz9000000
        } else if requested >= 4500000 {
            JTagFrequencyToDivider::Hz4500000
        } else if requested >= 2250000 {
            JTagFrequencyToDivider::Hz2250000
        } else if requested >= 1120000 {
            JTagFrequencyToDivider::Hz1120000
        } else if requested >= 560000 {
            JTagFrequencyToDivider::Hz560000
        } else {
            JTagFrequencyToDivider::Hz280000
        }
    }
}

} // verus!
