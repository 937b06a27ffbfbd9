//! The closed enumerations of the frontend property protocol.
//!
//! Each enumeration is carried on the wire as a 32-bit code; `code` gives
//! the code of a value and `from_repr` looks a value up by code, returning
//! `None` for a code outside the closed set.

use vstd::prelude::*;

verus! {

/// Legacy frontend kind; kept only for backward compatibility.
#[allow(non_camel_case_types)]
#[derive(Debug, Clone, Copy, PartialEq, Eq, Structural)]
pub enum fe_type {
    FE_QPSK,
    FE_QAM,
    FE_OFDM,
    FE_ATSC,
}

impl fe_type {
    /// The 32-bit wire code of this value.
    pub open spec fn code_spec(self) -> u32 {
        match self {
            fe_type::FE_QPSK => 0,
            fe_type::FE_QAM => 1,
            fe_type::FE_OFDM => 2,
            fe_type::FE_ATSC => 3,
        }
    }

    /// Returns the 32-bit wire code of this value.
    pub fn code(self) -> (r: u32)
        ensures
            r == self.code_spec(),
    {
        match self {
            fe_type::FE_QPSK => 0,
            fe_type::FE_QAM => 1,
            fe_type::FE_OFDM => 2,
            fe_type::FE_ATSC => 3,
        }
    }

    /// The value that a 32-bit wire code names, if any.
    pub open spec fn from_repr_spec(v: u32) -> Option<fe_type> {
        if v == 0 {
            Some(fe_type::FE_QPSK)
        } else if v == 1 {
            Some(fe_type::FE_QAM)
        } else if v == 2 {
            Some(fe_type::FE_OFDM)
        } else if v == 3 {
            Some(fe_type::FE_ATSC)
        } else {
            None
        }
    }

    /// Looks a value up by its 32-bit wire code.
    pub fn from_repr(v: u32) -> (r: Option<fe_type>)
        ensures
            r == Self::from_repr_spec(v),
    {
        if v == 0 {
            Some(fe_type::FE_QPSK)
        } else if v == 1 {
            Some(fe_type::FE_QAM)
        } else if v == 2 {
            Some(fe_type::FE_OFDM)
        } else if v == 3 {
            Some(fe_type::FE_ATSC)
        } else {
            None
        }
    }
}

/// DC voltage used to feed the LNBf.
#[allow(non_camel_case_types)]
#[derive(Debug, Clone, Copy, PartialEq, Eq, Structural)]
pub enum fe_sec_voltage {
    SEC_VOLTAGE_13,
    SEC_VOLTAGE_18,
    SEC_VOLTAGE_OFF,
}

impl fe_sec_voltage {
    /// The 32-bit wire code of this value.
    pub open spec fn code_spec(self) -> u32 {
        match self {
            fe_sec_voltage::SEC_VOLTAGE_13 => 0,
            fe_sec_voltage::SEC_VOLTAGE_18 => 1,
            fe_sec_voltage::SEC_VOLTAGE_OFF => 2,
        }
    }

    /// Returns the 32-bit wire code of this value.
    pub fn code(self) -> (r: u32)
        ensures
            r == self.code_spec(),
    {
        match self {
            fe_sec_voltage::SEC_VOLTAGE_13 => 0,
            fe_sec_voltage::SEC_VOLTAGE_18 => 1,
            fe_sec_voltage::SEC_VOLTAGE_OFF => 2,
        }
    }

    /// The value that a 32-bit wire code names, if any.
    pub open spec fn from_repr_spec(v: u32) -> Option<fe_sec_voltage> {
        if v == 0 {
            Some(fe_sec_voltage::SEC_VOLTAGE_13)
        } else if v == 1 {
            Some(fe_sec_voltage::SEC_VOLTAGE_18)
        } else if v == 2 {
            Some(fe_sec_voltage::SEC_VOLTAGE_OFF)
        } else {
            None
        }
    }

    /// Looks a value up by its 32-bit wire code.
    pub fn from_repr(v: u32) -> (r: Option<fe_sec_voltage>)
        ensures
            r == Self::from_repr_spec(v),
    {
        if v == 0 {
            Some(fe_sec_voltage::SEC_VOLTAGE_13)
        } else if v == 1 {
            Some(fe_sec_voltage::SEC_VOLTAGE_18)
        } else if v == 2 {
            Some(fe_sec_voltage::SEC_VOLTAGE_OFF)
        } else {
            None
        }
    }
}

/// Continuous 22kHz tone control.
#[allow(non_camel_case_types)]
#[derive(Debug, Clone, Copy, PartialEq, Eq, Structural)]
pub enum fe_sec_tone_mode {
    SEC_TONE_ON,
    SEC_TONE_OFF,
}

impl fe_sec_tone_mode {
    /// The 32-bit wire code of this value.
    pub open spec fn code_spec(self) -> u32 {
        match self {
            fe_sec_tone_mode::SEC_TONE_ON => 0,
            fe_sec_tone_mode::SEC_TONE_OFF => 1,
        }
    }

    /// Returns the 32-bit wire code of this value.
    pub fn code(self) -> (r: u32)
        ensures
            r == self.code_spec(),
    {
        match self {
            fe_sec_tone_mode::SEC_TONE_ON => 0,
            fe_sec_tone_mode::SEC_TONE_OFF => 1,
        }
    }

    /// The value that a 32-bit wire code names, if any.
    pub open spec fn from_repr_spec(v: u32) -> Option<fe_sec_tone_mode> {
        if v == 0 {
            Some(fe_sec_tone_mode::SEC_TONE_ON)
        } else if v == 1 {
            Some(fe_sec_tone_mode::SEC_TONE_OFF)
        } else {
            None
        }
    }

    /// Looks a value up by its 32-bit wire code.
    pub fn from_repr(v: u32) -> (r: Option<fe_sec_tone_mode>)
        ensures
            r == Self::from_repr_spec(v),
    {
        if v == 0 {
            Some(fe_sec_tone_mode::SEC_TONE_ON)
        } else if v == 1 {
            Some(fe_sec_tone_mode::SEC_TONE_OFF)
        } else {
            None
        }
    }
}

/// Kind of mini burst to be sent.
#[allow(non_camel_case_types)]
#[derive(Debug, Clone, Copy, PartialEq, Eq, Structural)]
pub enum fe_sec_mini_cmd {
    SEC_MINI_A,
    SEC_MINI_B,
}

impl fe_sec_mini_cmd {
    /// The 32-bit wire code of this value.
    pub open spec fn code_spec(self) -> u32 {
        match self {
            fe_sec_mini_cmd::SEC_MINI_A => 0,
            fe_sec_mini_cmd::SEC_MINI_B => 1,
        }
    }

    /// Returns the 32-bit wire code of this value.
    pub fn code(self) -> (r: u32)
        ensures
            r == self.code_spec(),
    {
        match self {
            fe_sec_mini_cmd::SEC_MINI_A => 0,
            fe_sec_mini_cmd::SEC_MINI_B => 1,
        }
    }

    /// The value that a 32-bit wire code names, if any.
    pub open spec fn from_repr_spec(v: u32) -> Option<fe_sec_mini_cmd> {
        if v == 0 {
            Some(fe_sec_mini_cmd::SEC_MINI_A)
        } else if v == 1 {
            Some(fe_sec_mini_cmd::SEC_MINI_B)
        } else {
            None
        }
    }

    /// Looks a value up by its 32-bit wire code.
    pub fn from_repr(v: u32) -> (r: Option<fe_sec_mini_cmd>)
        ensures
            r == Self::from_repr_spec(v),
    {
        if v == 0 {
            Some(fe_sec_mini_cmd::SEC_MINI_A)
        } else if v == 1 {
            Some(fe_sec_mini_cmd::SEC_MINI_B)
        } else {
            None
        }
    }
}

/// Spectral band inversion.
#[allow(non_camel_case_types)]
#[derive(Debug, Clone, Copy, PartialEq, Eq, Structural)]
pub enum fe_spectral_inversion {
    INVERSION_OFF,
    INVERSION_ON,
    INVERSION_AUTO,
}

impl fe_spectral_inversion {
    /// The 32-bit wire code of this value.
    pub open spec fn code_spec(self) -> u32 {
        match self {
            fe_spectral_inversion::INVERSION_OFF => 0,
            fe_spectral_inversion::INVERSION_ON => 1,
            fe_spectral_inversion::INVERSION_AUTO => 2,
        }
    }

    /// Returns the 32-bit wire code of this value.
    pub fn code(self) -> (r: u32)
        ensures
            r == self.code_spec(),
    {
        match self {
            fe_spectral_inversion::INVERSION_OFF => 0,
            fe_spectral_inversion::INVERSION_ON => 1,
            fe_spectral_inversion::INVERSION_AUTO => 2,
        }
    }

    /// The value that a 32-bit wire code names, if any.
    pub open spec fn from_repr_spec(v: u32) -> Option<fe_spectral_inversion> {
        if v == 0 {
            Some(fe_spectral_inversion::INVERSION_OFF)
        } else if v == 1 {
            Some(fe_spectral_inversion::INVERSION_ON)
        } else if v == 2 {
            Some(fe_spectral_inversion::INVERSION_AUTO)
        } else {
            None
        }
    }

    /// Looks a value up by its 32-bit wire code.
    pub fn from_repr(v: u32) -> (r: Option<fe_spectral_inversion>)
        ensures
            r == Self::from_repr_spec(v),
    {
        if v == 0 {
            Some(fe_spectral_inversion::INVERSION_OFF)
        } else if v == 1 {
            Some(fe_spectral_inversion::INVERSION_ON)
        } else if v == 2 {
            Some(fe_spectral_inversion::INVERSION_AUTO)
        } else {
            None
        }
    }
}

/// Forward error correction inner code rate.
#[allow(non_camel_case_types)]
#[derive(Debug, Clone, Copy, PartialEq, Eq, Structural)]
pub enum fe_code_rate {
    FEC_NONE,
    FEC_1_2,
    FEC_2_3,
    FEC_3_4,
    FEC_4_5,
    FEC_5_6,
    FEC_6_7,
    FEC_7_8,
    FEC_8_9,
    FEC_AUTO,
    FEC_3_5,
    FEC_9_10,
    FEC_2_5,
    FEC_1_4,
    FEC_1_3,
}

impl fe_code_rate {
    /// The 32-bit wire code of this value.
    pub open spec fn code_spec(self) -> u32 {
        match self {
            fe_code_rate::FEC_NONE => 0,
            fe_code_rate::FEC_1_2 => 1,
            fe_code_rate::FEC_2_3 => 2,
            fe_code_rate::FEC_3_4 => 3,
            fe_code_rate::FEC_4_5 => 4,
            fe_code_rate::FEC_5_6 => 5,
            fe_code_rate::FEC_6_7 => 6,
            fe_code_rate::FEC_7_8 => 7,
            fe_code_rate::FEC_8_9 => 8,
            fe_code_rate::FEC_AUTO => 9,
            fe_code_rate::FEC_3_5 => 10,
            fe_code_rate::FEC_9_10 => 11,
            fe_code_rate::FEC_2_5 => 12,
            fe_code_rate::FEC_1_4 => 13,
            fe_code_rate::FEC_1_3 => 14,
        }
    }

    /// Returns the 32-bit wire code of this value.
    pub fn code(self) -> (r: u32)
        ensures
            r == self.code_spec(),
    {
        match self {
            fe_code_rate::FEC_NONE => 0,
            fe_code_rate::FEC_1_2 => 1,
            fe_code_rate::FEC_2_3 => 2,
            fe_code_rate::FEC_3_4 => 3,
            fe_code_rate::FEC_4_5 => 4,
            fe_code_rate::FEC_5_6 => 5,
            fe_code_rate::FEC_6_7 => 6,
            fe_code_rate::FEC_7_8 => 7,
            fe_code_rate::FEC_8_9 => 8,
            fe_code_rate::FEC_AUTO => 9,
            fe_code_rate::FEC_3_5 => 10,
            fe_code_rate::FEC_9_10 => 11,
            fe_code_rate::FEC_2_5 => 12,
            fe_code_rate::FEC_1_4 => 13,
            fe_code_rate::FEC_1_3 => 14,
        }
    }

    /// The value that a 32-bit wire code names, if any.
    pub open spec fn from_repr_spec(v: u32) -> Option<fe_code_rate> {
        if v == 0 {
            Some(fe_code_rate::FEC_NONE)
        } else if v == 1 {
            Some(fe_code_rate::FEC_1_2)
        } else if v == 2 {
            Some(fe_code_rate::FEC_2_3)
        } else if v == 3 {
            Some(fe_code_rate::FEC_3_4)
        } else if v == 4 {
            Some(fe_code_rate::FEC_4_5)
        } else if v == 5 {
            Some(fe_code_rate::FEC_5_6)
        } else if v == 6 {
            Some(fe_code_rate::FEC_6_7)
        } else if v == 7 {
            Some(fe_code_rate::FEC_7_8)
        } else if v == 8 {
            Some(fe_code_rate::FEC_8_9)
        } else if v == 9 {
            Some(fe_code_rate::FEC_AUTO)
        } else if v == 10 {
            Some(fe_code_rate::FEC_3_5)
        } else if v == 11 {
            Some(fe_code_rate::FEC_9_10)
        } else if v == 12 {
            Some(fe_code_rate::FEC_2_5)
        } else if v == 13 {
            Some(fe_code_rate::FEC_1_4)
        } else if v == 14 {
            Some(fe_code_rate::FEC_1_3)
        } else {
            None
        }
    }

    /// Looks a value up by its 32-bit wire code.
    pub fn from_repr(v: u32) -> (r: Option<fe_code_rate>)
        ensures
            r == Self::from_repr_spec(v),
    {
        if v == 0 {
            Some(fe_code_rate::FEC_NONE)
        } else if v == 1 {
            Some(fe_code_rate::FEC_1_2)
        } else if v == 2 {
            Some(fe_code_rate::FEC_2_3)
        } else if v == 3 {
            Some(fe_code_rate::FEC_3_4)
        } else if v == 4 {
            Some(fe_code_rate::FEC_4_5)
        } else if v == 5 {
            Some(fe_code_rate::FEC_5_6)
        } else if v == 6 {
            Some(fe_code_rate::FEC_6_7)
        } else if v == 7 {
            Some(fe_code_rate::FEC_7_8)
        } else if v == 8 {
            Some(fe_code_rate::FEC_8_9)
        } else if v == 9 {
            Some(fe_code_rate::FEC_AUTO)
        } else if v == 10 {
            Some(fe_code_rate::FEC_3_5)
        } else if v == 11 {
            Some(fe_code_rate::FEC_9_10)
        } else if v == 12 {
            Some(fe_code_rate::FEC_2_5)
        } else if v == 13 {
            Some(fe_code_rate::FEC_1_4)
        } else if v == 14 {
            Some(fe_code_rate::FEC_1_3)
        } else {
            None
        }
    }
}

/// Kind of modulation/constellation.
#[allow(non_camel_case_types)]
#[derive(Debug, Clone, Copy, PartialEq, Eq, Structural)]
pub enum fe_modulation {
    QPSK,
    QAM_16,
    QAM_32,
    QAM_64,
    QAM_128,
    QAM_256,
    QAM_AUTO,
    VSB_8,
    VSB_16,
    PSK_8,
    APSK_16,
    APSK_32,
    DQPSK,
    QAM_4_NR,
    APSK_64,
    APSK_128,
    APSK_256,
}

impl fe_modulation {
    /// The 32-bit wire code of this value.
    pub open spec fn code_spec(self) -> u32 {
        match self {
            fe_modulation::QPSK => 0,
            fe_modulation::QAM_16 => 1,
            fe_modulation::QAM_32 => 2,
            fe_modulation::QAM_64 => 3,
            fe_modulation::QAM_128 => 4,
            fe_modulation::QAM_256 => 5,
            fe_modulation::QAM_AUTO => 6,
            fe_modulation::VSB_8 => 7,
            fe_modulation::VSB_16 => 8,
            fe_modulation::PSK_8 => 9,
            fe_modulation::APSK_16 => 10,
            fe_modulation::APSK_32 => 11,
            fe_modulation::DQPSK => 12,
            fe_modulation::QAM_4_NR => 13,
            fe_modulation::APSK_64 => 14,
            fe_modulation::APSK_128 => 15,
            fe_modulation::APSK_256 => 16,
        }
    }

    /// Returns the 32-bit wire code of this value.
    pub fn code(self) -> (r: u32)
        ensures
            r == self.code_spec(),
    {
        match self {
            fe_modulation::QPSK => 0,
            fe_modulation::QAM_16 => 1,
            fe_modulation::QAM_32 => 2,
            fe_modulation::QAM_64 => 3,
            fe_modulation::QAM_128 => 4,
            fe_modulation::QAM_256 => 5,
            fe_modulation::QAM_AUTO => 6,
            fe_modulation::VSB_8 => 7,
            fe_modulation::VSB_16 => 8,
            fe_modulation::PSK_8 => 9,
            fe_modulation::APSK_16 => 10,
            fe_modulation::APSK_32 => 11,
            fe_modulation::DQPSK => 12,
            fe_modulation::QAM_4_NR => 13,
            fe_modulation::APSK_64 => 14,
            fe_modulation::APSK_128 => 15,
            fe_modulation::APSK_256 => 16,
        }
    }

    /// The value that a 32-bit wire code names, if any.
    pub open spec fn from_repr_spec(v: u32) -> Option<fe_modulation> {
        if v == 0 {
            Some(fe_modulation::QPSK)
        } else if v == 1 {
            Some(fe_modulation::QAM_16)
        } else if v == 2 {
            Some(fe_modulation::QAM_32)
        } else if v == 3 {
            Some(fe_modulation::QAM_64)
        } else if v == 4 {
            Some(fe_modulation::QAM_128)
        } else if v == 5 {
            Some(fe_modulation::QAM_256)
        } else if v == 6 {
            Some(fe_modulation::QAM_AUTO)
        } else if v == 7 {
            Some(fe_modulation::VSB_8)
        } else if v == 8 {
            Some(fe_modulation::VSB_16)
        } else if v == 9 {
            Some(fe_modulation::PSK_8)
        } else if v == 10 {
            Some(fe_modulation::APSK_16)
        } else if v == 11 {
            Some(fe_modulation::APSK_32)
        } else if v == 12 {
            Some(fe_modulation::DQPSK)
        } else if v == 13 {
            Some(fe_modulation::QAM_4_NR)
        } else if v == 14 {
            Some(fe_modulation::APSK_64)
        } else if v == 15 {
            Some(fe_modulation::APSK_128)
        } else if v == 16 {
            Some(fe_modulation::APSK_256)
        } else {
            None
        }
    }

    /// Looks a value up by its 32-bit wire code.
    pub fn from_repr(v: u32) -> (r: Option<fe_modulation>)
        ensures
            r == Self::from_repr_spec(v),
    {
        if v == 0 {
            Some(fe_modulation::QPSK)
        } else if v == 1 {
            Some(fe_modulation::QAM_16)
        } else if v == 2 {
            Some(fe_modulation::QAM_32)
        } else if v == 3 {
            Some(fe_modulation::QAM_64)
        } else if v == 4 {
            Some(fe_modulation::QAM_128)
        } else if v == 5 {
            Some(fe_modulation::QAM_256)
        } else if v == 6 {
            Some(fe_modulation::QAM_AUTO)
        } else if v == 7 {
            Some(fe_modulation::VSB_8)
        } else if v == 8 {
            Some(fe_modulation::VSB_16)
        } else if v == 9 {
            Some(fe_modulation::PSK_8)
        } else if v == 10 {
            Some(fe_modulation::APSK_16)
        } else if v == 11 {
            Some(fe_modulation::APSK_32)
        } else if v == 12 {
            Some(fe_modulation::DQPSK)
        } else if v == 13 {
            Some(fe_modulation::QAM_4_NR)
        } else if v == 14 {
            Some(fe_modulation::APSK_64)
        } else if v == 15 {
            Some(fe_modulation::APSK_128)
        } else if v == 16 {
            Some(fe_modulation::APSK_256)
        } else {
            None
        }
    }
}

/// Number of carriers per channel (transmission mode).
#[allow(non_camel_case_types)]
#[derive(Debug, Clone, Copy, PartialEq, Eq, Structural)]
pub enum fe_transmit_mode {
    TRANSMISSION_MODE_2K,
    TRANSMISSION_MODE_8K,
    TRANSMISSION_MODE_AUTO,
    TRANSMISSION_MODE_4K,
    TRANSMISSION_MODE_1K,
    TRANSMISSION_MODE_16K,
    TRANSMISSION_MODE_32K,
    TRANSMISSION_MODE_C1,
    TRANSMISSION_MODE_C3780,
}

impl fe_transmit_mode {
    /// The 32-bit wire code of this value.
    pub open spec fn code_spec(self) -> u32 {
        match self {
            fe_transmit_mode::TRANSMISSION_MODE_2K => 0,
            fe_transmit_mode::TRANSMISSION_MODE_8K => 1,
            fe_transmit_mode::TRANSMISSION_MODE_AUTO => 2,
            fe_transmit_mode::TRANSMISSION_MODE_4K => 3,
            fe_transmit_mode::TRANSMISSION_MODE_1K => 4,
            fe_transmit_mode::TRANSMISSION_MODE_16K => 5,
            fe_transmit_mode::TRANSMISSION_MODE_32K => 6,
            fe_transmit_mode::TRANSMISSION_MODE_C1 => 7,
            fe_transmit_mode::TRANSMISSION_MODE_C3780 => 8,
        }
    }

    /// Returns the 32-bit wire code of this value.
    pub fn code(self) -> (r: u32)
        ensures
            r == self.code_spec(),
    {
        match self {
            fe_transmit_mode::TRANSMISSION_MODE_2K => 0,
            fe_transmit_mode::TRANSMISSION_MODE_8K => 1,
            fe_transmit_mode::TRANSMISSION_MODE_AUTO => 2,
            fe_transmit_mode::TRANSMISSION_MODE_4K => 3,
            fe_transmit_mode::TRANSMISSION_MODE_1K => 4,
            fe_transmit_mode::TRANSMISSION_MODE_16K => 5,
            fe_transmit_mode::TRANSMISSION_MODE_32K => 6,
            fe_transmit_mode::TRANSMISSION_MODE_C1 => 7,
            fe_transmit_mode::TRANSMISSION_MODE_C3780 => 8,
        }
    }

    /// The value that a 32-bit wire code names, if any.
    pub open spec fn from_repr_spec(v: u32) -> Option<fe_transmit_mode> {
        if v == 0 {
            Some(fe_transmit_mode::TRANSMISSION_MODE_2K)
        } else if v == 1 {
            Some(fe_transmit_mode::TRANSMISSION_MODE_8K)
        } else if v == 2 {
            Some(fe_transmit_mode::TRANSMISSION_MODE_AUTO)
        } else if v == 3 {
            Some(fe_transmit_mode::TRANSMISSION_MODE_4K)
        } else if v == 4 {
            Some(fe_transmit_mode::TRANSMISSION_MODE_1K)
        } else if v == 5 {
            Some(fe_transmit_mode::TRANSMISSION_MODE_16K)
        } else if v == 6 {
            Some(fe_transmit_mode::TRANSMISSION_MODE_32K)
        } else if v == 7 {
            Some(fe_transmit_mode::TRANSMISSION_MODE_C1)
        } else if v == 8 {
            Some(fe_transmit_mode::TRANSMISSION_MODE_C3780)
        } else {
            None
        }
    }

    /// Looks a value up by its 32-bit wire code.
    pub fn from_repr(v: u32) -> (r: Option<fe_transmit_mode>)
        ensures
            r == Self::from_repr_spec(v),
    {
        if v == 0 {
            Some(fe_transmit_mode::TRANSMISSION_MODE_2K)
        } else if v == 1 {
            Some(fe_transmit_mode::TRANSMISSION_MODE_8K)
        } else if v == 2 {
            Some(fe_transmit_mode::TRANSMISSION_MODE_AUTO)
        } else if v == 3 {
            Some(fe_transmit_mode::TRANSMISSION_MODE_4K)
        } else if v == 4 {
            Some(fe_transmit_mode::TRANSMISSION_MODE_1K)
        } else if v == 5 {
            Some(fe_transmit_mode::TRANSMISSION_MODE_16K)
        } else if v == 6 {
            Some(fe_transmit_mode::TRANSMISSION_MODE_32K)
        } else if v == 7 {
            Some(fe_transmit_mode::TRANSMISSION_MODE_C1)
        } else if v == 8 {
            Some(fe_transmit_mode::TRANSMISSION_MODE_C3780)
        } else {
            None
        }
    }
}

/// Guard interval between frames.
#[allow(non_camel_case_types)]
#[derive(Debug, Clone, Copy, PartialEq, Eq, Structural)]
pub enum fe_guard_interval {
    GUARD_INTERVAL_1_32,
    GUARD_INTERVAL_1_16,
    GUARD_INTERVAL_1_8,
    GUARD_INTERVAL_1_4,
    GUARD_INTERVAL_AUTO,
    GUARD_INTERVAL_1_128,
    GUARD_INTERVAL_19_128,
    GUARD_INTERVAL_19_256,
    GUARD_INTERVAL_PN420,
    GUARD_INTERVAL_PN595,
    GUARD_INTERVAL_PN945,
}

impl fe_guard_interval {
    /// The 32-bit wire code of this value.
    pub open spec fn code_spec(self) -> u32 {
        match self {
            fe_guard_interval::GUARD_INTERVAL_1_32 => 0,
            fe_guard_interval::GUARD_INTERVAL_1_16 => 1,
            fe_guard_interval::GUARD_INTERVAL_1_8 => 2,
            fe_guard_interval::GUARD_INTERVAL_1_4 => 3,
            fe_guard_interval::GUARD_INTERVAL_AUTO => 4,
            fe_guard_interval::GUARD_INTERVAL_1_128 => 5,
            fe_guard_interval::GUARD_INTERVAL_19_128 => 6,
            fe_guard_interval::GUARD_INTERVAL_19_256 => 7,
            fe_guard_interval::GUARD_INTERVAL_PN420 => 8,
            fe_guard_interval::GUARD_INTERVAL_PN595 => 9,
            fe_guard_interval::GUARD_INTERVAL_PN945 => 10,
        }
    }

    /// Returns the 32-bit wire code of this value.
    pub fn code(self) -> (r: u32)
        ensures
            r == self.code_spec(),
    {
        match self {
            fe_guard_interval::GUARD_INTERVAL_1_32 => 0,
            fe_guard_interval::GUARD_INTERVAL_1_16 => 1,
            fe_guard_interval::GUARD_INTERVAL_1_8 => 2,
            fe_guard_interval::GUARD_INTERVAL_1_4 => 3,
            fe_guard_interval::GUARD_INTERVAL_AUTO => 4,
            fe_guard_interval::GUARD_INTERVAL_1_128 => 5,
            fe_guard_interval::GUARD_INTERVAL_19_128 => 6,
            fe_guard_interval::GUARD_INTERVAL_19_256 => 7,
            fe_guard_interval::GUARD_INTERVAL_PN420 => 8,
            fe_guard_interval::GUARD_INTERVAL_PN595 => 9,
            fe_guard_interval::GUARD_INTERVAL_PN945 => 10,
        }
    }

    /// The value that a 32-bit wire code names, if any.
    pub open spec fn from_repr_spec(v: u32) -> Option<fe_guard_interval> {
        if v == 0 {
            Some(fe_guard_interval::GUARD_INTERVAL_1_32)
        } else if v == 1 {
            Some(fe_guard_interval::GUARD_INTERVAL_1_16)
        } else if v == 2 {
            Some(fe_guard_interval::GUARD_INTERVAL_1_8)
        } else if v == 3 {
            Some(fe_guard_interval::GUARD_INTERVAL_1_4)
        } else if v == 4 {
            Some(fe_guard_interval::GUARD_INTERVAL_AUTO)
        } else if v == 5 {
            Some(fe_guard_interval::GUARD_INTERVAL_1_128)
        } else if v == 6 {
            Some(fe_guard_interval::GUARD_INTERVAL_19_128)
        } else if v == 7 {
            Some(fe_guard_interval::GUARD_INTERVAL_19_256)
        } else if v == 8 {
            Some(fe_guard_interval::GUARD_INTERVAL_PN420)
        } else if v == 9 {
            Some(fe_guard_interval::GUARD_INTERVAL_PN595)
        } else if v == 10 {
            Some(fe_guard_interval::GUARD_INTERVAL_PN945)
        } else {
            None
        }
    }

    /// Looks a value up by its 32-bit wire code.
    pub fn from_repr(v: u32) -> (r: Option<fe_guard_interval>)
        ensures
            r == Self::from_repr_spec(v),
    {
        if v == 0 {
            Some(fe_guard_interval::GUARD_INTERVAL_1_32)
        } else if v == 1 {
            Some(fe_guard_interval::GUARD_INTERVAL_1_16)
        } else if v == 2 {
            Some(fe_guard_interval::GUARD_INTERVAL_1_8)
        } else if v == 3 {
            Some(fe_guard_interval::GUARD_INTERVAL_1_4)
        } else if v == 4 {
            Some(fe_guard_interval::GUARD_INTERVAL_AUTO)
        } else if v == 5 {
            Some(fe_guard_interval::GUARD_INTERVAL_1_128)
        } else if v == 6 {
            Some(fe_guard_interval::GUARD_INTERVAL_19_128)
        } else if v == 7 {
            Some(fe_guard_interval::GUARD_INTERVAL_19_256)
        } else if v == 8 {
            Some(fe_guard_interval::GUARD_INTERVAL_PN420)
        } else if v == 9 {
            Some(fe_guard_interval::GUARD_INTERVAL_PN595)
        } else if v == 10 {
            Some(fe_guard_interval::GUARD_INTERVAL_PN945)
        } else {
            None
        }
    }
}

/// Hierarchical information transmission setting.
#[allow(non_camel_case_types)]
#[derive(Debug, Clone, Copy, PartialEq, Eq, Structural)]
pub enum fe_hierarchy {
    HIERARCHY_NONE,
    HIERARCHY_1,
    HIERARCHY_2,
    HIERARCHY_4,
    HIERARCHY_AUTO,
}

impl fe_hierarchy {
    /// The 32-bit wire code of this value.
    pub open spec fn code_spec(self) -> u32 {
        match self {
            fe_hierarchy::HIERARCHY_NONE => 0,
            fe_hierarchy::HIERARCHY_1 => 1,
            fe_hierarchy::HIERARCHY_2 => 2,
            fe_hierarchy::HIERARCHY_4 => 3,
            fe_hierarchy::HIERARCHY_AUTO => 4,
        }
    }

    /// Returns the 32-bit wire code of this value.
    pub fn code(self) -> (r: u32)
        ensures
            r == self.code_spec(),
    {
        match self {
            fe_hierarchy::HIERARCHY_NONE => 0,
            fe_hierarchy::HIERARCHY_1 => 1,
            fe_hierarchy::HIERARCHY_2 => 2,
            fe_hierarchy::HIERARCHY_4 => 3,
            fe_hierarchy::HIERARCHY_AUTO => 4,
        }
    }

    /// The value that a 32-bit wire code names, if any.
    pub open spec fn from_repr_spec(v: u32) -> Option<fe_hierarchy> {
        if v == 0 {
            Some(fe_hierarchy::HIERARCHY_NONE)
        } else if v == 1 {
            Some(fe_hierarchy::HIERARCHY_1)
        } else if v == 2 {
            Some(fe_hierarchy::HIERARCHY_2)
        } else if v == 3 {
            Some(fe_hierarchy::HIERARCHY_4)
        } else if v == 4 {
            Some(fe_hierarchy::HIERARCHY_AUTO)
        } else {
            None
        }
    }

    /// Looks a value up by its 32-bit wire code.
    pub fn from_repr(v: u32) -> (r: Option<fe_hierarchy>)
        ensures
            r == Self::from_repr_spec(v),
    {
        if v == 0 {
            Some(fe_hierarchy::HIERARCHY_NONE)
        } else if v == 1 {
            Some(fe_hierarchy::HIERARCHY_1)
        } else if v == 2 {
            Some(fe_hierarchy::HIERARCHY_2)
        } else if v == 3 {
            Some(fe_hierarchy::HIERARCHY_4)
        } else if v == 4 {
            Some(fe_hierarchy::HIERARCHY_AUTO)
        } else {
            None
        }
    }
}

/// Time interleaving setting.
#[allow(non_camel_case_types)]
#[derive(Debug, Clone, Copy, PartialEq, Eq, Structural)]
pub enum fe_interleaving {
    INTERLEAVING_NONE,
    INTERLEAVING_AUTO,
    INTERLEAVING_240,
    INTERLEAVING_720,
}

impl fe_interleaving {
    /// The 32-bit wire code of this value.
    pub open spec fn code_spec(self) -> u32 {
        match self {
            fe_interleaving::INTERLEAVING_NONE => 0,
            fe_interleaving::INTERLEAVING_AUTO => 1,
            fe_interleaving::INTERLEAVING_240 => 2,
            fe_interleaving::INTERLEAVING_720 => 3,
        }
    }

    /// Returns the 32-bit wire code of this value.
    pub fn code(self) -> (r: u32)
        ensures
            r == self.code_spec(),
    {
        match self {
            fe_interleaving::INTERLEAVING_NONE => 0,
            fe_interleaving::INTERLEAVING_AUTO => 1,
            fe_interleaving::INTERLEAVING_240 => 2,
            fe_interleaving::INTERLEAVING_720 => 3,
        }
    }

    /// The value that a 32-bit wire code names, if any.
    pub open spec fn from_repr_spec(v: u32) -> Option<fe_interleaving> {
        if v == 0 {
            Some(fe_interleaving::INTERLEAVING_NONE)
        } else if v == 1 {
            Some(fe_interleaving::INTERLEAVING_AUTO)
        } else if v == 2 {
            Some(fe_interleaving::INTERLEAVING_240)
        } else if v == 3 {
            Some(fe_interleaving::INTERLEAVING_720)
        } else {
            None
        }
    }

    /// Looks a value up by its 32-bit wire code.
    pub fn from_repr(v: u32) -> (r: Option<fe_interleaving>)
        ensures
            r == Self::from_repr_spec(v),
    {
        if v == 0 {
            Some(fe_interleaving::INTERLEAVING_NONE)
        } else if v == 1 {
            Some(fe_interleaving::INTERLEAVING_AUTO)
        } else if v == 2 {
            Some(fe_interleaving::INTERLEAVING_240)
        } else if v == 3 {
            Some(fe_interleaving::INTERLEAVING_720)
        } else {
            None
        }
    }
}

/// Pilot tones on/off.
#[allow(non_camel_case_types)]
#[derive(Debug, Clone, Copy, PartialEq, Eq, Structural)]
pub enum fe_pilot {
    PILOT_ON,
    PILOT_OFF,
    PILOT_AUTO,
}

impl fe_pilot {
    /// The 32-bit wire code of this value.
    pub open spec fn code_spec(self) -> u32 {
        match self {
            fe_pilot::PILOT_ON => 0,
            fe_pilot::PILOT_OFF => 1,
            fe_pilot::PILOT_AUTO => 2,
        }
    }

    /// Returns the 32-bit wire code of this value.
    pub fn code(self) -> (r: u32)
        ensures
            r == self.code_spec(),
    {
        match self {
            fe_pilot::PILOT_ON => 0,
            fe_pilot::PILOT_OFF => 1,
            fe_pilot::PILOT_AUTO => 2,
        }
    }

    /// The value that a 32-bit wire code names, if any.
    pub open spec fn from_repr_spec(v: u32) -> Option<fe_pilot> {
        if v == 0 {
            Some(fe_pilot::PILOT_ON)
        } else if v == 1 {
            Some(fe_pilot::PILOT_OFF)
        } else if v == 2 {
            Some(fe_pilot::PILOT_AUTO)
        } else {
            None
        }
    }

    /// Looks a value up by its 32-bit wire code.
    pub fn from_repr(v: u32) -> (r: Option<fe_pilot>)
        ensures
            r == Self::from_repr_spec(v),
    {
        if v == 0 {
            Some(fe_pilot::PILOT_ON)
        } else if v == 1 {
            Some(fe_pilot::PILOT_OFF)
        } else if v == 2 {
            Some(fe_pilot::PILOT_AUTO)
        } else {
            None
        }
    }
}

/// Roll-off factor.
#[allow(non_camel_case_types)]
#[derive(Debug, Clone, Copy, PartialEq, Eq, Structural)]
pub enum fe_rolloff {
    ROLLOFF_35,
    ROLLOFF_20,
    ROLLOFF_25,
    ROLLOFF_AUTO,
    ROLLOFF_15,
    ROLLOFF_10,
    ROLLOFF_5,
}

impl fe_rolloff {
    /// The 32-bit wire code of this value.
    pub open spec fn code_spec(self) -> u32 {
        match self {
            fe_rolloff::ROLLOFF_35 => 0,
            fe_rolloff::ROLLOFF_20 => 1,
            fe_rolloff::ROLLOFF_25 => 2,
            fe_rolloff::ROLLOFF_AUTO => 3,
            fe_rolloff::ROLLOFF_15 => 4,
            fe_rolloff::ROLLOFF_10 => 5,
            fe_rolloff::ROLLOFF_5 => 6,
        }
    }

    /// Returns the 32-bit wire code of this value.
    pub fn code(self) -> (r: u32)
        ensures
            r == self.code_spec(),
    {
        match self {
            fe_rolloff::ROLLOFF_35 => 0,
            fe_rolloff::ROLLOFF_20 => 1,
            fe_rolloff::ROLLOFF_25 => 2,
            fe_rolloff::ROLLOFF_AUTO => 3,
            fe_rolloff::ROLLOFF_15 => 4,
            fe_rolloff::ROLLOFF_10 => 5,
            fe_rolloff::ROLLOFF_5 => 6,
        }
    }

    /// The value that a 32-bit wire code names, if any.
    pub open spec fn from_repr_spec(v: u32) -> Option<fe_rolloff> {
        if v == 0 {
            Some(fe_rolloff::ROLLOFF_35)
        } else if v == 1 {
            Some(fe_rolloff::ROLLOFF_20)
        } else if v == 2 {
            Some(fe_rolloff::ROLLOFF_25)
        } else if v == 3 {
            Some(fe_rolloff::ROLLOFF_AUTO)
        } else if v == 4 {
            Some(fe_rolloff::ROLLOFF_15)
        } else if v == 5 {
            Some(fe_rolloff::ROLLOFF_10)
        } else if v == 6 {
            Some(fe_rolloff::ROLLOFF_5)
        } else {
            None
        }
    }

    /// Looks a value up by its 32-bit wire code.
    pub fn from_repr(v: u32) -> (r: Option<fe_rolloff>)
        ensures
            r == Self::from_repr_spec(v),
    {
        if v == 0 {
            Some(fe_rolloff::ROLLOFF_35)
        } else if v == 1 {
            Some(fe_rolloff::ROLLOFF_20)
        } else if v == 2 {
            Some(fe_rolloff::ROLLOFF_25)
        } else if v == 3 {
            Some(fe_rolloff::ROLLOFF_AUTO)
        } else if v == 4 {
            Some(fe_rolloff::ROLLOFF_15)
        } else if v == 5 {
            Some(fe_rolloff::ROLLOFF_10)
        } else if v == 6 {
            Some(fe_rolloff::ROLLOFF_5)
        } else {
            None
        }
    }
}

/// The modulation/transport standard in use.
#[allow(non_camel_case_types)]
#[derive(Debug, Clone, Copy, PartialEq, Eq, Structural)]
pub enum fe_delivery_system {
    SYS_UNDEFINED,
    SYS_DVBC_ANNEX_A,
    SYS_DVBC_ANNEX_B,
    SYS_DVBT,
    SYS_DSS,
    SYS_DVBS,
    SYS_DVBS2,
    SYS_DVBH,
    SYS_ISDBT,
    SYS_ISDBS,
    SYS_ISDBC,
    SYS_ATSC,
    SYS_ATSCMH,
    SYS_DTMB,
    SYS_CMMB,
    SYS_DAB,
    SYS_DVBT2,
    SYS_TURBO,
    SYS_DVBC_ANNEX_C,
    SYS_DVBC2,
}

impl fe_delivery_system {
    /// The 32-bit wire code of this value.
    pub open spec fn code_spec(self) -> u32 {
        match self {
            fe_delivery_system::SYS_UNDEFINED => 0,
            fe_delivery_system::SYS_DVBC_ANNEX_A => 1,
            fe_delivery_system::SYS_DVBC_ANNEX_B => 2,
            fe_delivery_system::SYS_DVBT => 3,
            fe_delivery_system::SYS_DSS => 4,
            fe_delivery_system::SYS_DVBS => 5,
            fe_delivery_system::SYS_DVBS2 => 6,
            fe_delivery_system::SYS_DVBH => 7,
            fe_delivery_system::SYS_ISDBT => 8,
            fe_delivery_system::SYS_ISDBS => 9,
            fe_delivery_system::SYS_ISDBC => 10,
            fe_delivery_system::SYS_ATSC => 11,
            fe_delivery_system::SYS_ATSCMH => 12,
            fe_delivery_system::SYS_DTMB => 13,
            fe_delivery_system::SYS_CMMB => 14,
            fe_delivery_system::SYS_DAB => 15,
            fe_delivery_system::SYS_DVBT2 => 16,
            fe_delivery_system::SYS_TURBO => 17,
            fe_delivery_system::SYS_DVBC_ANNEX_C => 18,
            fe_delivery_system::SYS_DVBC2 => 19,
        }
    }

    /// Returns the 32-bit wire code of this value.
    pub fn code(self) -> (r: u32)
        ensures
            r == self.code_spec(),
    {
        match self {
            fe_delivery_system::SYS_UNDEFINED => 0,
            fe_delivery_system::SYS_DVBC_ANNEX_A => 1,
            fe_delivery_system::SYS_DVBC_ANNEX_B => 2,
            fe_delivery_system::SYS_DVBT => 3,
            fe_delivery_system::SYS_DSS => 4,
            fe_delivery_system::SYS_DVBS => 5,
            fe_delivery_system::SYS_DVBS2 => 6,
            fe_delivery_system::SYS_DVBH => 7,
            fe_delivery_system::SYS_ISDBT => 8,
            fe_delivery_system::SYS_ISDBS => 9,
            fe_delivery_system::SYS_ISDBC => 10,
            fe_delivery_system::SYS_ATSC => 11,
            fe_delivery_system::SYS_ATSCMH => 12,
            fe_delivery_system::SYS_DTMB => 13,
            fe_delivery_system::SYS_CMMB => 14,
            fe_delivery_system::SYS_DAB => 15,
            fe_delivery_system::SYS_DVBT2 => 16,
            fe_delivery_system::SYS_TURBO => 17,
            fe_delivery_system::SYS_DVBC_ANNEX_C => 18,
            fe_delivery_system::SYS_DVBC2 => 19,
        }
    }

    /// The value that a 32-bit wire code names, if any.
    pub open spec fn from_repr_spec(v: u32) -> Option<fe_delivery_system> {
        if v == 0 {
            Some(fe_delivery_system::SYS_UNDEFINED)
        } else if v == 1 {
            Some(fe_delivery_system::SYS_DVBC_ANNEX_A)
        } else if v == 2 {
            Some(fe_delivery_system::SYS_DVBC_ANNEX_B)
        } else if v == 3 {
            Some(fe_delivery_system::SYS_DVBT)
        } else if v == 4 {
            Some(fe_delivery_system::SYS_DSS)
        } else if v == 5 {
            Some(fe_delivery_system::SYS_DVBS)
        } else if v == 6 {
            Some(fe_delivery_system::SYS_DVBS2)
        } else if v == 7 {
            Some(fe_delivery_system::SYS_DVBH)
        } else if v == 8 {
            Some(fe_delivery_system::SYS_ISDBT)
        } else if v == 9 {
            Some(fe_delivery_system::SYS_ISDBS)
        } else if v == 10 {
            Some(fe_delivery_system::SYS_ISDBC)
        } else if v == 11 {
            Some(fe_delivery_system::SYS_ATSC)
        } else if v == 12 {
            Some(fe_delivery_system::SYS_ATSCMH)
        } else if v == 13 {
            Some(fe_delivery_system::SYS_DTMB)
        } else if v == 14 {
            Some(fe_delivery_system::SYS_CMMB)
        } else if v == 15 {
            Some(fe_delivery_system::SYS_DAB)
        } else if v == 16 {
            Some(fe_delivery_system::SYS_DVBT2)
        } else if v == 17 {
            Some(fe_delivery_system::SYS_TURBO)
        } else if v == 18 {
            Some(fe_delivery_system::SYS_DVBC_ANNEX_C)
        } else if v == 19 {
            Some(fe_delivery_system::SYS_DVBC2)
        } else {
            None
        }
    }

    /// Looks a value up by its 32-bit wire code.
    pub fn from_repr(v: u32) -> (r: Option<fe_delivery_system>)
        ensures
            r == Self::from_repr_spec(v),
    {
        if v == 0 {
            Some(fe_delivery_system::SYS_UNDEFINED)
        } else if v == 1 {
            Some(fe_delivery_system::SYS_DVBC_ANNEX_A)
        } else if v == 2 {
            Some(fe_delivery_system::SYS_DVBC_ANNEX_B)
        } else if v == 3 {
            Some(fe_delivery_system::SYS_DVBT)
        } else if v == 4 {
            Some(fe_delivery_system::SYS_DSS)
        } else if v == 5 {
            Some(fe_delivery_system::SYS_DVBS)
        } else if v == 6 {
            Some(fe_delivery_system::SYS_DVBS2)
        } else if v == 7 {
            Some(fe_delivery_system::SYS_DVBH)
        } else if v == 8 {
            Some(fe_delivery_system::SYS_ISDBT)
        } else if v == 9 {
            Some(fe_delivery_system::SYS_ISDBS)
        } else if v == 10 {
            Some(fe_delivery_system::SYS_ISDBC)
        } else if v == 11 {
            Some(fe_delivery_system::SYS_ATSC)
        } else if v == 12 {
            Some(fe_delivery_system::SYS_ATSCMH)
        } else if v == 13 {
            Some(fe_delivery_system::SYS_DTMB)
        } else if v == 14 {
            Some(fe_delivery_system::SYS_CMMB)
        } else if v == 15 {
            Some(fe_delivery_system::SYS_DAB)
        } else if v == 16 {
            Some(fe_delivery_system::SYS_DVBT2)
        } else if v == 17 {
            Some(fe_delivery_system::SYS_TURBO)
        } else if v == 18 {
            Some(fe_delivery_system::SYS_DVBC_ANNEX_C)
        } else if v == 19 {
            Some(fe_delivery_system::SYS_DVBC2)
        } else {
            None
        }
    }
}

/// Low-noise amplifier control.
#[allow(non_camel_case_types)]
#[derive(Debug, Clone, Copy, PartialEq, Eq, Structural)]
pub enum fe_lna {
    LNA_OFF,
    LNA_ON,
    LNA_AUTO,
}

impl fe_lna {
    /// The 32-bit wire code of this value.
    pub open spec fn code_spec(self) -> u32 {
        match self {
            fe_lna::LNA_OFF => 0,
            fe_lna::LNA_ON => 1,
            fe_lna::LNA_AUTO => 0xFFFFFFFF,
        }
    }

    /// Returns the 32-bit wire code of this value.
    pub fn code(self) -> (r: u32)
        ensures
            r == self.code_spec(),
    {
        match self {
            fe_lna::LNA_OFF => 0,
            fe_lna::LNA_ON => 1,
            fe_lna::LNA_AUTO => 0xFFFFFFFF,
        }
    }

    /// The value that a 32-bit wire code names, if any.
    pub open spec fn from_repr_spec(v: u32) -> Option<fe_lna> {
        if v == 0 {
            Some(fe_lna::LNA_OFF)
        } else if v == 1 {
            Some(fe_lna::LNA_ON)
        } else if v == 0xFFFFFFFF {
            Some(fe_lna::LNA_AUTO)
        } else {
            None
        }
    }

    /// Looks a value up by its 32-bit wire code.
    pub fn from_repr(v: u32) -> (r: Option<fe_lna>)
        ensures
            r == Self::from_repr_spec(v),
    {
        if v == 0 {
            Some(fe_lna::LNA_OFF)
        } else if v == 1 {
            Some(fe_lna::LNA_ON)
        } else if v == 0xFFFFFFFF {
            Some(fe_lna::LNA_AUTO)
        } else {
            None
        }
    }
}

// Each code lemma below records that looking a value's own wire code back
// up yields that value: the two directions of the closed mapping agree.

/// Looking up the wire code of a `fe_type` value yields that value.
pub proof fn lemma_fe_type_code_rt(m: fe_type)
    ensures
        fe_type::from_repr_spec(m.code_spec()) == Some(m),
{
    match m {
        fe_type::FE_QPSK => {}
        fe_type::FE_QAM => {}
        fe_type::FE_OFDM => {}
        fe_type::FE_ATSC => {}
    }
}

/// Looking up the wire code of a `fe_sec_voltage` value yields that value.
pub proof fn lemma_fe_sec_voltage_code_rt(m: fe_sec_voltage)
    ensures
        fe_sec_voltage::from_repr_spec(m.code_spec()) == Some(m),
{
    match m {
        fe_sec_voltage::SEC_VOLTAGE_13 => {}
        fe_sec_voltage::SEC_VOLTAGE_18 => {}
        fe_sec_voltage::SEC_VOLTAGE_OFF => {}
    }
}

/// Looking up the wire code of a `fe_sec_tone_mode` value yields that value.
pub proof fn lemma_fe_sec_tone_mode_code_rt(m: fe_sec_tone_mode)
    ensures
        fe_sec_tone_mode::from_repr_spec(m.code_spec()) == Some(m),
{
    match m {
        fe_sec_tone_mode::SEC_TONE_ON => {}
        fe_sec_tone_mode::SEC_TONE_OFF => {}
    }
}

/// Looking up the wire code of a `fe_sec_mini_cmd` value yields that value.
pub proof fn lemma_fe_sec_mini_cmd_code_rt(m: fe_sec_mini_cmd)
    ensures
        fe_sec_mini_cmd::from_repr_spec(m.code_spec()) == Some(m),
{
    match m {
        fe_sec_mini_cmd::SEC_MINI_A => {}
        fe_sec_mini_cmd::SEC_MINI_B => {}
    }
}

/// Looking up the wire code of a `fe_spectral_inversion` value yields that value.
pub proof fn lemma_fe_spectral_inversion_code_rt(m: fe_spectral_inversion)
    ensures
        fe_spectral_inversion::from_repr_spec(m.code_spec()) == Some(m),
{
    match m {
        fe_spectral_inversion::INVERSION_OFF => {}
        fe_spectral_inversion::INVERSION_ON => {}
        fe_spectral_inversion::INVERSION_AUTO => {}
    }
}

/// Looking up the wire code of a `fe_code_rate` value yields that value.
pub proof fn lemma_fe_code_rate_code_rt(m: fe_code_rate)
    ensures
        fe_code_rate::from_repr_spec(m.code_spec()) == Some(m),
{
    match m {
        fe_code_rate::FEC_NONE => {}
        fe_code_rate::FEC_1_2 => {}
        fe_code_rate::FEC_2_3 => {}
        fe_code_rate::FEC_3_4 => {}
        fe_code_rate::FEC_4_5 => {}
        fe_code_rate::FEC_5_6 => {}
        fe_code_rate::FEC_6_7 => {}
        fe_code_rate::FEC_7_8 => {}
        fe_code_rate::FEC_8_9 => {}
        fe_code_rate::FEC_AUTO => {}
        fe_code_rate::FEC_3_5 => {}
        fe_code_rate::FEC_9_10 => {}
        fe_code_rate::FEC_2_5 => {}
        fe_code_rate::FEC_1_4 => {}
        fe_code_rate::FEC_1_3 => {}
    }
}

/// Looking up the wire code of a `fe_modulation` value yields that value.
pub proof fn lemma_fe_modulation_code_rt(m: fe_modulation)
    ensures
        fe_modulation::from_repr_spec(m.code_spec()) == Some(m),
{
    match m {
        fe_modulation::QPSK => {}
        fe_modulation::QAM_16 => {}
        fe_modulation::QAM_32 => {}
        fe_modulation::QAM_64 => {}
        fe_modulation::QAM_128 => {}
        fe_modulation::QAM_256 => {}
        fe_modulation::QAM_AUTO => {}
        fe_modulation::VSB_8 => {}
        fe_modulation::VSB_16 => {}
        fe_modulation::PSK_8 => {}
        fe_modulation::APSK_16 => {}
        fe_modulation::APSK_32 => {}
        fe_modulation::DQPSK => {}
        fe_modulation::QAM_4_NR => {}
        fe_modulation::APSK_64 => {}
        fe_modulation::APSK_128 => {}
        fe_modulation::APSK_256 => {}
    }
}

/// Looking up the wire code of a `fe_transmit_mode` value yields that value.
pub proof fn lemma_fe_transmit_mode_code_rt(m: fe_transmit_mode)
    ensures
        fe_transmit_mode::from_repr_spec(m.code_spec()) == Some(m),
{
    match m {
        fe_transmit_mode::TRANSMISSION_MODE_2K => {}
        fe_transmit_mode::TRANSMISSION_MODE_8K => {}
        fe_transmit_mode::TRANSMISSION_MODE_AUTO => {}
        fe_transmit_mode::TRANSMISSION_MODE_4K => {}
        fe_transmit_mode::TRANSMISSION_MODE_1K => {}
        fe_transmit_mode::TRANSMISSION_MODE_16K => {}
        fe_transmit_mode::TRANSMISSION_MODE_32K => {}
        fe_transmit_mode::TRANSMISSION_MODE_C1 => {}
        fe_transmit_mode::TRANSMISSION_MODE_C3780 => {}
    }
}

/// Looking up the wire code of a `fe_guard_interval` value yields that value.
pub proof fn lemma_fe_guard_interval_code_rt(m: fe_guard_interval)
    ensures
        fe_guard_interval::from_repr_spec(m.code_spec()) == Some(m),
{
    match m {
        fe_guard_interval::GUARD_INTERVAL_1_32 => {}
        fe_guard_interval::GUARD_INTERVAL_1_16 => {}
        fe_guard_interval::GUARD_INTERVAL_1_8 => {}
        fe_guard_interval::GUARD_INTERVAL_1_4 => {}
        fe_guard_interval::GUARD_INTERVAL_AUTO => {}
        fe_guard_interval::GUARD_INTERVAL_1_128 => {}
        fe_guard_interval::GUARD_INTERVAL_19_128 => {}
        fe_guard_interval::GUARD_INTERVAL_19_256 => {}
        fe_guard_interval::GUARD_INTERVAL_PN420 => {}
        fe_guard_interval::GUARD_INTERVAL_PN595 => {}
        fe_guard_interval::GUARD_INTERVAL_PN945 => {}
    }
}

/// Looking up the wire code of a `fe_hierarchy` value yields that value.
pub proof fn lemma_fe_hierarchy_code_rt(m: fe_hierarchy)
    ensures
        fe_hierarchy::from_repr_spec(m.code_spec()) == Some(m),
{
    match m {
        fe_hierarchy::HIERARCHY_NONE => {}
        fe_hierarchy::HIERARCHY_1 => {}
        fe_hierarchy::HIERARCHY_2 => {}
        fe_hierarchy::HIERARCHY_4 => {}
        fe_hierarchy::HIERARCHY_AUTO => {}
    }
}

/// Looking up the wire code of a `fe_interleaving` value yields that value.
pub proof fn lemma_fe_interleaving_code_rt(m: fe_interleaving)
    ensures
        fe_interleaving::from_repr_spec(m.code_spec()) == Some(m),
{
    match m {
        fe_interleaving::INTERLEAVING_NONE => {}
        fe_interleaving::INTERLEAVING_AUTO => {}
        fe_interleaving::INTERLEAVING_240 => {}
        fe_interleaving::INTERLEAVING_720 => {}
    }
}

/// Looking up the wire code of a `fe_pilot` value yields that value.
pub proof fn lemma_fe_pilot_code_rt(m: fe_pilot)
    ensures
        fe_pilot::from_repr_spec(m.code_spec()) == Some(m),
{
    match m {
        fe_pilot::PILOT_ON => {}
        fe_pilot::PILOT_OFF => {}
        fe_pilot::PILOT_AUTO => {}
    }
}

/// Looking up the wire code of a `fe_rolloff` value yields that value.
pub proof fn lemma_fe_rolloff_code_rt(m: fe_rolloff)
    ensures
        fe_rolloff::from_repr_spec(m.code_spec()) == Some(m),
{
    match m {
        fe_rolloff::ROLLOFF_35 => {}
        fe_rolloff::ROLLOFF_20 => {}
        fe_rolloff::ROLLOFF_25 => {}
        fe_rolloff::ROLLOFF_AUTO => {}
        fe_rolloff::ROLLOFF_15 => {}
        fe_rolloff::ROLLOFF_10 => {}
        fe_rolloff::ROLLOFF_5 => {}
    }
}

/// Looking up the wire code of a `fe_delivery_system` value yields that value.
pub proof fn lemma_fe_delivery_system_code_rt(m: fe_delivery_system)
    ensures
        fe_delivery_system::from_repr_spec(m.code_spec()) == Some(m),
{
    match m {
        fe_delivery_system::SYS_UNDEFINED => {}
        fe_delivery_system::SYS_DVBC_ANNEX_A => {}
        fe_delivery_system::SYS_DVBC_ANNEX_B => {}
        fe_delivery_system::SYS_DVBT => {}
        fe_delivery_system::SYS_DSS => {}
        fe_delivery_system::SYS_DVBS => {}
        fe_delivery_system::SYS_DVBS2 => {}
        fe_delivery_system::SYS_DVBH => {}
        fe_delivery_system::SYS_ISDBT => {}
        fe_delivery_system::SYS_ISDBS => {}
        fe_delivery_system::SYS_ISDBC => {}
        fe_delivery_system::SYS_ATSC => {}
        fe_delivery_system::SYS_ATSCMH => {}
        fe_delivery_system::SYS_DTMB => {}
        fe_delivery_system::SYS_CMMB => {}
        fe_delivery_system::SYS_DAB => {}
        fe_delivery_system::SYS_DVBT2 => {}
        fe_delivery_system::SYS_TURBO => {}
        fe_delivery_system::SYS_DVBC_ANNEX_C => {}
        fe_delivery_system::SYS_DVBC2 => {}
    }
}

/// Looking up the wire code of a `fe_lna` value yields that value.
pub proof fn lemma_fe_lna_code_rt(m: fe_lna)
    ensures
        fe_lna::from_repr_spec(m.code_spec()) == Some(m),
{
    match m {
        fe_lna::LNA_OFF => {}
        fe_lna::LNA_ON => {}
        fe_lna::LNA_AUTO => {}
    }
}

} // verus!
