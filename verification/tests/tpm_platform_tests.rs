use openprot::tpm_platform::clock::{ticks_to_ms, ClockAdjust, ClockDirection, TpmClock};
use openprot::tpm_platform::lifecycle::TpmLifecycle;
use openprot::tpm_platform::nv::{NvCompare, NvReadyState, TpmNv};
use openprot::tpm_platform::{
    PlatformState, TpmCancel, TpmEntropy, TpmInfo, TpmLocality, TpmPcr, TpmPlatform, TpmVirtualNv, NV_RAM_SIZE,
};

#[test]
fn fresh_state() {
    let s = PlatformState::new();
    assert_eq!(s.nv_ram.len(), NV_RAM_SIZE);
    assert!(s.nv_ram.iter().all(|b| *b == 0xff));
    assert!(s.power_lost && s.timer_reset && s.timer_stopped && s.manufacture_needed);
    assert!(!s.nv_enabled);
    assert_eq!(s.locality, 0);
}

#[test]
fn nv_read_after_write() {
    let mut s = PlatformState::new();
    assert!(<TpmPlatform as TpmNv>::needs_manufacture(&s));
    assert!(<TpmPlatform as TpmNv>::write(&mut s, 100, 4, &[1, 2, 3, 4]));
    assert!(!<TpmPlatform as TpmNv>::needs_manufacture(&s));
    let mut out = [0u8; 6];
    assert!(<TpmPlatform as TpmNv>::read(&s, 98, 6, &mut out));
    assert_eq!(out, [0xff, 0xff, 1, 2, 3, 4]);
    assert_eq!(<TpmPlatform as TpmNv>::get_changed_status(&s, 100, 4, &[1, 2, 3, 4]), NvCompare::Same);
    assert_eq!(<TpmPlatform as TpmNv>::get_changed_status(&s, 100, 4, &[1, 2, 3, 5]), NvCompare::Different);
    assert_eq!(<TpmPlatform as TpmNv>::get_changed_status(&s, 100, 4, &[1, 2, 3]), NvCompare::Different);
    assert_eq!(<TpmPlatform as TpmNv>::get_changed_status(&s, 8190, 4, &[1, 2, 3, 4]), NvCompare::Invalid);
}

#[test]
fn nv_out_of_range() {
    let mut s = PlatformState::new();
    assert!(!<TpmPlatform as TpmNv>::write(&mut s, 8190, 4, &[1, 2, 3, 4]));
    assert!(s.manufacture_needed);
    let mut out = [7u8; 4];
    assert!(!<TpmPlatform as TpmNv>::read(&s, 8190, 4, &mut out));
    assert_eq!(out, [7; 4]);
    assert_eq!(<TpmPlatform as TpmNv>::clear(&mut s, 8000, 500), -1);
    assert_eq!(<TpmPlatform as TpmNv>::move_block(&mut s, 0, 8190, 4), -1);
    assert!(<TpmPlatform as TpmNv>::write(&mut s, 8188, 4, &[1, 2, 3, 4]));
    assert!(!<TpmPlatform as TpmNv>::write(&mut s, u32::MAX, 1, &[9]));
}

#[test]
fn nv_clear_and_move() {
    let mut s = PlatformState::new();
    assert!(<TpmPlatform as TpmNv>::write(&mut s, 0, 6, &[1, 2, 3, 4, 5, 6]));
    assert_eq!(<TpmPlatform as TpmNv>::clear(&mut s, 1, 2), 0);
    let mut out = [0u8; 6];
    assert!(<TpmPlatform as TpmNv>::read(&s, 0, 6, &mut out));
    assert_eq!(out, [1, 0xff, 0xff, 4, 5, 6]);
    // overlapping move keeps the source bytes
    assert_eq!(<TpmPlatform as TpmNv>::move_block(&mut s, 0, 2, 4), 0);
    assert!(<TpmPlatform as TpmNv>::read(&s, 0, 6, &mut out));
    assert_eq!(out, [1, 0xff, 1, 0xff, 0xff, 4]);
    assert_eq!(<TpmPlatform as TpmNv>::commit(), 0);
    assert_eq!(<TpmPlatform as TpmNv>::get_ready_state(), NvReadyState::Ready);
    assert_eq!(<TpmPlatform as TpmNv>::enable(&mut s), 0);
    assert!(s.nv_enabled);
    <TpmPlatform as TpmNv>::disable(&mut s);
    assert!(!s.nv_enabled);
}

#[test]
fn flags_are_cleared_when_read() {
    let mut s = PlatformState::new();
    assert!(<TpmPlatform as TpmClock>::was_reset(&mut s));
    assert!(!<TpmPlatform as TpmClock>::was_reset(&mut s));
    assert!(<TpmPlatform as TpmClock>::was_stopped(&mut s));
    assert!(!<TpmPlatform as TpmClock>::was_stopped(&mut s));
    assert!(<TpmPlatform as TpmLifecycle>::was_power_lost(&mut s));
    assert!(!<TpmPlatform as TpmLifecycle>::was_power_lost(&mut s));
    assert_eq!(<TpmPlatform as TpmLifecycle>::power_on(&mut s), 0);
    assert!(s.power_lost && s.timer_reset);
    <TpmPlatform as TpmClock>::restart(&mut s);
    assert!(<TpmPlatform as TpmClock>::was_stopped(&mut s));
    <TpmPlatform as TpmClock>::adjust_rate(ClockAdjust::Fine, ClockDirection::Faster);
}

#[test]
fn clock_in_milliseconds() {
    assert_eq!(ticks_to_ms(0), 0);
    assert_eq!(ticks_to_ms(100_000_000), 1000);
    assert_eq!(ticks_to_ms(250_000), 2);
    assert_eq!(ticks_to_ms(u64::MAX), u64::MAX / 100_000_000);
    assert_eq!(<TpmPlatform as TpmClock>::read(300_000_000), 3000);
    assert_eq!(<TpmPlatform as TpmClock>::real_time(300_000_000), 3000);
}

#[test]
fn fixed_answers() {
    let mut s = PlatformState::new();
    <TpmPlatform as TpmLocality>::set(&mut s, 3);
    assert_eq!(<TpmPlatform as TpmLocality>::get(&s), 3);
    let mut e = [0u8; 5];
    assert_eq!(<TpmPlatform as TpmEntropy>::get_entropy(&mut e), 5);
    assert_eq!(e, [0x42; 5]);
    assert!(!<TpmPlatform as TpmCancel>::is_canceled());
    assert_eq!(<TpmPlatform as TpmPcr>::number_of_pcrs(), 24);
    let mut pcr = [9u8; 4];
    assert_eq!(<TpmPlatform as TpmPcr>::get_initial_value(0, 0x0b, 0, &mut pcr), 0);
    assert_eq!(pcr, [0; 4]);
    assert_eq!(<TpmPlatform as TpmInfo>::get_manufacturer_code(), 0x474f4f47);
    assert_eq!(<TpmPlatform as TpmVirtualNv>::read_public(0x01000000, &mut [0u8; 4]), 0x80);
}

#[test]
fn nv_read_after_write_elsewhere() {
    let mut s = PlatformState::new();
    assert!(<TpmPlatform as TpmNv>::write(&mut s, 10, 3, &[5, 6, 7]));
    assert!(<TpmPlatform as TpmNv>::write(&mut s, 13, 2, &[8, 9]));
    assert!(<TpmPlatform as TpmNv>::write(&mut s, 4000, 1, &[1]));
    let mut out = [0u8; 3];
    assert!(<TpmPlatform as TpmNv>::read(&s, 10, 3, &mut out));
    assert_eq!(out, [5, 6, 7]);
}
