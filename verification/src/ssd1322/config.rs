//! Settings of the controller and the argument bytes that carry them.

use vstd::prelude::*;

verus! {

pub enum DisplayMode {
    AllOff,
    AllOn,
    Normal,
    Inverted,
}

pub struct Function {
    pub internal_vdd_reg: bool,
}

/// What one of the two general purpose pins does: it floats, with its input
/// switched on or off, or it drives high or low.
pub enum GPIOState {
    HiZ(bool),
    Output(bool),
}

/// `weight` where `on` holds, else zero.
pub open spec fn bit(on: bool, weight: int) -> int {
    if on {
        weight
    } else {
        0
    }
}

impl GPIOState {
    /// The two bits that select this state.
    pub open spec fn spec_protocol_arg(self) -> u8 {
        match self {
            GPIOState::HiZ(input) => if input {
                1
            } else {
                0
            },
            GPIOState::Output(high) => if high {
                3
            } else {
                2
            },
        }
    }

    pub fn protocol_arg(&self) -> (arg: u8)
        ensures
            arg == self.spec_protocol_arg(),
    {
        match self {
            GPIOState::HiZ(input) => {
                if *input {
                    0b01
                } else {
                    0b00
                }
            },
            GPIOState::Output(high) => {
                if *high {
                    0b11
                } else {
                    0b10
                }
            },
        }
    }
}

pub struct DisplayEnhancementA {
    pub vsl: VSL,
    pub low_gs_quality: LowGSQuality,
}

impl DisplayEnhancementA {
    /// The first byte is 0xa0 with bit 1 set for an internal VSL; the second
    /// is 0b101 below the five bits 10110 for normal and 11111 for enhanced
    /// low grey scale quality.
    pub open spec fn spec_protocol_args(self) -> (u8, u8) {
        (
            match self.vsl {
                VSL::Internal => 0xa2,
                VSL::External => 0xa0,
            },
            match self.low_gs_quality {
                LowGSQuality::Normal => 0xb5,
                LowGSQuality::Enhanced => 0xfd,
            },
        )
    }

    pub fn protocol_args(&self) -> (args: (u8, u8))
        ensures
            args == self.spec_protocol_args(),
    {
        let a: u8 = match self.vsl {
            VSL::Internal => 0b10100010,
            VSL::External => 0b10100000,
        };
        let b: u8 = match self.low_gs_quality {
            LowGSQuality::Normal => 0b10110101,
            LowGSQuality::Enhanced => 0b11111101,
        };
        (a, b)
    }
}

pub enum DisplayEnhancementB {
    Normal,
    Reserved,
}

impl DisplayEnhancementB {
    pub open spec fn spec_protocol_args(self) -> (u8, u8) {
        (
            match self {
                DisplayEnhancementB::Normal => 0xa2,
                DisplayEnhancementB::Reserved => 0x82,
            },
            0x20,
        )
    }

    pub fn protocol_args(&self) -> (args: (u8, u8))
        ensures
            args == self.spec_protocol_args(),
    {
        let a: u8 = match self {
            DisplayEnhancementB::Normal => 0b10100010,
            DisplayEnhancementB::Reserved => 0b10000010,
        };
        let b: u8 = 0b00100000;
        (a, b)
    }
}

pub enum VSL {
    Internal,
    External,
}

pub enum LowGSQuality {
    Normal,
    Enhanced,
}

pub struct Remap {
    pub address_increment: WriteDirection,
    pub column_addr_remap: bool,
    pub nibble_remap: bool,
    pub scan_direction: ScanDirection,
    pub com_split_odd_even: bool,
    pub dual_com_mode: bool,
}

pub enum WriteDirection {
    Horizontal,
    Vertical,
}

pub enum ScanDirection {
    Forward,
    Backward,
}

/// Setting a bit that lies above every bit set so far adds its weight.
proof fn lemma_set_higher_bit(a: u8, m: u8)
    by (bit_vector)
    requires
        m == 1 || m == 2 || m == 4 || m == 8 || m == 16 || m == 32 || m == 64,
        a < m,
    ensures
        a | m == a + m,
{
}

impl Remap {
    /// The first byte holds, from bit 0 upwards: vertical address increment,
    /// column address remap, nibble remap, a bit that stays clear, backward
    /// scan, odd/even split of the COM lines. The second byte is 1 with bit 4
    /// set for dual COM mode.
    pub open spec fn spec_protocol_args(self) -> (u8, u8) {
        (
            (bit(self.address_increment is Vertical, 1) + bit(self.column_addr_remap, 2) + bit(
                self.nibble_remap,
                4,
            ) + bit(self.scan_direction is Backward, 16) + bit(self.com_split_odd_even, 32)) as u8,
            (1 + bit(self.dual_com_mode, 16)) as u8,
        )
    }

    pub fn protocol_args(&self) -> (args: (u8, u8))
        ensures
            args == self.spec_protocol_args(),
    {
        let mut a: u8 = 0b00000000;
        let mut b: u8 = 0b00000001;

        if let WriteDirection::Vertical = self.address_increment {
            proof {
                lemma_set_higher_bit(a, 1);
            }
            a |= 0b1;
        }
        if self.column_addr_remap {
            proof {
                lemma_set_higher_bit(a, 2);
            }
            a |= 0b10;
        }
        if self.nibble_remap {
            proof {
                lemma_set_higher_bit(a, 4);
            }
            a |= 0b100;
        }
        if let ScanDirection::Backward = self.scan_direction {
            proof {
                lemma_set_higher_bit(a, 16);
            }
            a |= 0b10000;
        }
        if self.com_split_odd_even {
            proof {
                lemma_set_higher_bit(a, 32);
            }
            a |= 0b100000;
        }
        if self.dual_com_mode {
            proof {
                lemma_set_higher_bit(b, 16);
            }
            b |= 0b10000;
        }
        (a, b)
    }
}

} // verus!
