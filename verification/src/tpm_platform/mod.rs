//! The platform layer of the TPM service: NV storage in RAM, clock and
//! lifecycle flags, locality, and the fixed answers of a development platform.

use vstd::prelude::*;

pub mod clock;
pub mod lifecycle;
pub mod nv;

verus! {

/// Size of the NV storage in bytes.
pub const NV_RAM_SIZE: usize = 8192;

/// The state that the platform functions read and change.
pub struct PlatformState {
    pub nv_ram: Vec<u8>,
    pub power_lost: bool,
    pub timer_reset: bool,
    pub timer_stopped: bool,
    pub nv_enabled: bool,
    pub manufacture_needed: bool,
    pub locality: u8,
}

impl PlatformState {
    /// The NV storage has its fixed size.
    pub open spec fn wf(&self) -> bool {
        self.nv_ram@.len() == NV_RAM_SIZE
    }

    /// The state at power-up: erased NV (all 0xff), power lost, timer reset
    /// and stopped, NV disabled, manufacturing needed, locality 0.
    pub fn new() -> (r: Self)
        ensures
            r.wf(),
            forall|i: int| 0 <= i < NV_RAM_SIZE ==> r.nv_ram@[i] == 0xff,
            r.power_lost,
            r.timer_reset,
            r.timer_stopped,
            !r.nv_enabled,
            r.manufacture_needed,
            r.locality == 0,
    {
        let nv_ram: Vec<u8> = vec![0xffu8; NV_RAM_SIZE];
        PlatformState {
            nv_ram,
            power_lost: true,
            timer_reset: true,
            timer_stopped: true,
            nv_enabled: false,
            manufacture_needed: true,
            locality: 0,
        }
    }
}

/// The development TPM platform.
pub struct TpmPlatform;

/// Entropy source.
pub trait TpmEntropy {
    /// Fills `entropy` and returns the number of bytes written.
    fn get_entropy(entropy: &mut [u8]) -> (r: i32)
        ensures
            final(entropy)@.len() == old(entropy)@.len(),
    ;
}

impl TpmEntropy for TpmPlatform {
    /// Fills the buffer with the constant 0x42 (no real entropy on this platform).
    fn get_entropy(entropy: &mut [u8]) -> (r: i32)
        ensures
            forall|i: int| 0 <= i < final(entropy)@.len() ==> final(entropy)@[i] == 0x42,
            r == old(entropy)@.len() as i32,
    {
        let mut i: usize = 0;
        while i < entropy.len()
            invariant
                i <= entropy@.len(),
                entropy@.len() == old(entropy)@.len(),
                forall|j: int| 0 <= j < i ==> entropy@[j] == 0x42,
            decreases entropy@.len() - i,
        {
            entropy[i] = 0x42;
            i += 1;
        }
        entropy.len() as i32
    }
}

/// The locality of the current command.
pub trait TpmLocality {
    /// The current locality.
    fn get(state: &PlatformState) -> u8;

    /// Sets the current locality.
    fn set(state: &mut PlatformState, locality: u8);
}

impl TpmLocality for TpmPlatform {
    fn get(state: &PlatformState) -> (r: u8)
        ensures
            r == state.locality,
    {
        state.locality
    }

    fn set(state: &mut PlatformState, locality: u8)
        ensures
            *final(state) == (PlatformState { locality, ..*old(state) }),
    {
        state.locality = locality;
    }
}

/// Command cancellation.
pub trait TpmCancel {
    /// Whether the current command is cancelled.
    fn is_canceled() -> bool;

    /// Requests cancellation.
    fn set();

    /// Clears the cancellation request.
    fn clear();
}

impl TpmCancel for TpmPlatform {
    /// Commands are never cancelled on this platform.
    fn is_canceled() -> (r: bool)
        ensures
            !r,
    {
        false
    }

    fn set() {
    }

    fn clear() {
    }
}

/// PCR configuration.
pub trait TpmPcr {
    /// The number of PCRs.
    fn number_of_pcrs() -> u32;

    /// The attributes of a PCR.
    fn get_attributes(pcr: u32) -> u32;

    /// Writes the initial value of a PCR into `buffer` and returns its size.
    fn get_initial_value(pcr: u32, alg: u16, locality: u8, buffer: &mut [u8]) -> (r: u16)
        ensures
            final(buffer)@.len() == old(buffer)@.len(),
    ;

    /// Whether a PCR bank is active by default.
    fn is_bank_default_active(alg: u16) -> bool;
}

impl TpmPcr for TpmPlatform {
    /// 24 PCRs.
    fn number_of_pcrs() -> (r: u32)
        ensures
            r == 24,
    {
        24
    }

    /// No PCR has attributes.
    fn get_attributes(_pcr: u32) -> (r: u32)
        ensures
            r == 0,
    {
        0
    }

    /// Zeroes the buffer and returns 0.
    fn get_initial_value(_pcr: u32, _alg: u16, _locality: u8, buffer: &mut [u8]) -> (r: u16)
        ensures
            r == 0,
            forall|i: int| 0 <= i < final(buffer)@.len() ==> final(buffer)@[i] == 0,
    {
        let mut i: usize = 0;
        while i < buffer.len()
            invariant
                i <= buffer@.len(),
                buffer@.len() == old(buffer)@.len(),
                forall|j: int| 0 <= j < i ==> buffer@[j] == 0,
            decreases buffer@.len() - i,
        {
            buffer[i] = 0;
            i += 1;
        }
        0
    }

    /// Every bank is active by default.
    fn is_bank_default_active(_alg: u16) -> (r: bool)
        ensures
            r,
    {
        true
    }
}

/// The specification level the TPM claims.
#[derive(Clone, Copy, PartialEq, Eq, Structural, Debug)]
pub struct SpecCapabilityValue {
    pub tpm_spec_level: u32,
    pub tpm_spec_version: u32,
    pub tpm_spec_year: u32,
    pub tpm_spec_day_of_year: u32,
    pub platform_family: u32,
    pub platform_level: u32,
    pub platform_revision: u32,
    pub platform_year: u32,
    pub platform_day_of_year: u32,
}

/// Identity of the TPM and its firmware.
pub trait TpmInfo {
    fn get_manufacturer_code() -> u32;
    fn get_vendor_code(index: i32) -> u32;
    fn get_vendor_type() -> u32;
    fn get_firmware_version_high() -> u32;
    fn get_firmware_version_low() -> u32;
    fn get_firmware_svn() -> u16;
    fn get_firmware_max_svn() -> u16;
    fn get_spec_capability(data: &mut SpecCapabilityValue);
    fn get_manufacture_data(data: &mut [u8]);
    fn get_enabled_self_test(full_test: u8, to_test_vector: &mut [u8]);
}

impl TpmInfo for TpmPlatform {
    /// "GOOG".
    fn get_manufacturer_code() -> (r: u32)
        ensures
            r == 0x474f4f47,
    {
        0x474f4f47
    }

    fn get_vendor_code(_index: i32) -> (r: u32)
        ensures
            r == 0,
    {
        0
    }

    fn get_vendor_type() -> (r: u32)
        ensures
            r == 0,
    {
        0
    }

    fn get_firmware_version_high() -> (r: u32)
        ensures
            r == 1,
    {
        1
    }

    fn get_firmware_version_low() -> (r: u32)
        ensures
            r == 0,
    {
        0
    }

    fn get_firmware_svn() -> (r: u16)
        ensures
            r == 1,
    {
        1
    }

    fn get_firmware_max_svn() -> (r: u16)
        ensures
            r == 1,
    {
        1
    }

    /// TPM 2.0 specification version 200 of 2018, day 1; no platform values.
    fn get_spec_capability(data: &mut SpecCapabilityValue)
        ensures
            *final(data) == (SpecCapabilityValue {
                tpm_spec_level: 0,
                tpm_spec_version: 200,
                tpm_spec_year: 2018,
                tpm_spec_day_of_year: 1,
                platform_family: 0,
                platform_level: 0,
                platform_revision: 0,
                platform_year: 0,
                platform_day_of_year: 0,
            }),
    {
        *data = SpecCapabilityValue {
            tpm_spec_level: 0,
            tpm_spec_version: 200,
            tpm_spec_year: 2018,
            tpm_spec_day_of_year: 1,
            platform_family: 0,
            platform_level: 0,
            platform_revision: 0,
            platform_year: 0,
            platform_day_of_year: 0,
        };
    }

    /// No manufacture data: the buffer is left as it is.
    fn get_manufacture_data(_data: &mut [u8])
        ensures
            final(_data)@ == old(_data)@,
    {
    }

    /// No self tests are enabled: the vector is left as it is.
    fn get_enabled_self_test(_full_test: u8, _to_test_vector: &mut [u8])
        ensures
            final(_to_test_vector)@ == old(_to_test_vector)@,
    {
    }
}

/// Virtual NV indices.
pub trait TpmVirtualNv {
    fn is_virtual_index(handle: u32) -> bool;
    fn read(handle: u32, offset: u32, size: u32, buffer: &mut [u8]) -> i32;
    fn read_public(handle: u32, buffer: &mut [u8]) -> u16;
    fn populate_info(handle: u32);
    fn cap_get_index(handle: u32) -> u32;
    fn operation_accepts_virtual_handles(handle: u32) -> bool;
}

impl TpmVirtualNv for TpmPlatform {
    /// There are no virtual indices.
    fn is_virtual_index(_handle: u32) -> (r: bool)
        ensures
            !r,
    {
        false
    }

    /// Reading a virtual index always fails with -1.
    fn read(_handle: u32, _offset: u32, _size: u32, _buffer: &mut [u8]) -> (r: i32)
        ensures
            r == -1,
            final(_buffer)@ == old(_buffer)@,
    {
        -1
    }

    /// The public area of a virtual index is never found (TPM_RC_HANDLE).
    fn read_public(_handle: u32, _buffer: &mut [u8]) -> (r: u16)
        ensures
            r == 0x0080,
            final(_buffer)@ == old(_buffer)@,
    {
        0x0080
    }

    fn populate_info(_handle: u32) {
    }

    fn cap_get_index(_handle: u32) -> (r: u32)
        ensures
            r == 0,
    {
        0
    }

    fn operation_accepts_virtual_handles(_handle: u32) -> (r: bool)
        ensures
            !r,
    {
        false
    }
}

/// Failure mode.
pub trait TpmFail {
    fn fail(function: Option<&str>, line: i32, location: u64, code: i32);
    fn in_failure_mode() -> bool;
    fn get_code() -> u32;
    fn get_location() -> u64;
    fn get_function_name() -> Option<&'static str>;
    fn get_line() -> u32;
}

impl TpmFail for TpmPlatform {
    /// Failures are not recorded.
    fn fail(_function: Option<&str>, _line: i32, _location: u64, _code: i32) {
    }

    /// The platform is never in failure mode.
    fn in_failure_mode() -> (r: bool)
        ensures
            !r,
    {
        false
    }

    fn get_code() -> (r: u32)
        ensures
            r == 0,
    {
        0
    }

    fn get_location() -> (r: u64)
        ensures
            r == 0,
    {
        0
    }

    fn get_function_name() -> (r: Option<&'static str>)
        ensures
            r is None,
    {
        None
    }

    fn get_line() -> (r: u32)
        ensures
            r == 0,
    {
        0
    }
}

/// Firmware secrets.
pub trait TpmSecrets {
    fn get_firmware_secret(buffer: &mut [u8]) -> i32;
    fn get_firmware_svn_secret(svn: u16, buffer: &mut [u8]) -> i32;
}

impl TpmSecrets for TpmPlatform {
    /// No firmware secret is available: -1.
    fn get_firmware_secret(_buffer: &mut [u8]) -> (r: i32)
        ensures
            r == -1,
            final(_buffer)@ == old(_buffer)@,
    {
        -1
    }

    /// No firmware SVN secret is available: -1.
    fn get_firmware_svn_secret(_svn: u16, _buffer: &mut [u8]) -> (r: i32)
        ensures
            r == -1,
            final(_buffer)@ == old(_buffer)@,
    {
        -1
    }
}

/// Simulator controls.
pub trait TpmControl {
    fn set_force_failure_mode();
    fn set_nv_avail(avail: bool);
    fn set_tpm_firmware_hash(hash: u32);
    fn set_tpm_firmware_svn(svn: u16);
    fn set_physical_presence(on: bool);
    fn physical_presence_asserted() -> bool;
}

impl TpmControl for TpmPlatform {
    fn set_force_failure_mode() {
    }

    fn set_nv_avail(_avail: bool) {
    }

    fn set_tpm_firmware_hash(_hash: u32) {
    }

    fn set_tpm_firmware_svn(_svn: u16) {
    }

    fn set_physical_presence(_on: bool) {
    }

    /// Physical presence is always asserted.
    fn physical_presence_asserted() -> (r: bool)
        ensures
            r,
    {
        true
    }
}

} // verus!
