use blkid::dev::GetDevFlags;
use blkid::error::{c_result, BlkIdError, RawResult};
use blkid::prober::{
    full_probe_outcome, has_value_outcome, probe_outcome, safe_probe_outcome, wipe_outcome,
    ProbeState,
};
use blkid::{
    check_c_string, interior_nul_position, utf8_result, PartitionsFlags, SuperblocksFlags,
};

#[test]
fn c_result_passes_non_negative_values_through() {
    assert_eq!(c_result(0i32, 13), Ok(0i32));
    assert_eq!(c_result(7i32, 13), Ok(7i32));
    assert_eq!(c_result(0i64, 13), Ok(0i64));
    assert_eq!(c_result(i64::MAX, 13), Ok(i64::MAX));
}

#[test]
fn c_result_turns_negative_values_into_io_errors() {
    assert_eq!(c_result(-1i32, 13), Err(BlkIdError::Io(13)));
    assert_eq!(c_result(i32::MIN, 2), Err(BlkIdError::Io(2)));
    assert_eq!(c_result(-1i64, 0), Err(BlkIdError::Io(0)));
}

#[test]
fn raw_result_sentinels_are_the_negative_values() {
    assert!((-1i32).is_error());
    assert!(!0i32.is_error());
    assert!(!1i32.is_error());
    assert!((-1i64).is_error());
    assert!(!0i64.is_error());
}

#[test]
fn probe_outcome_translates_the_tri_state() {
    assert_eq!(probe_outcome(0, 9), Ok(ProbeState::Success));
    assert_eq!(probe_outcome(1, 9), Ok(ProbeState::Done));
    assert_eq!(probe_outcome(-1, 9), Err(BlkIdError::Io(9)));
    assert_eq!(probe_outcome(2, 9), Err(BlkIdError::Io(9)));
}

#[test]
fn safe_probe_outcome_translates_the_tri_state() {
    assert_eq!(safe_probe_outcome(0, 9), Ok(ProbeState::Success));
    assert_eq!(safe_probe_outcome(1, 9), Ok(ProbeState::NothingDetected));
    assert_eq!(safe_probe_outcome(-2, 9), Ok(ProbeState::Ambivalent));
    assert_eq!(safe_probe_outcome(-1, 9), Err(BlkIdError::Io(9)));
    assert_eq!(safe_probe_outcome(5, 9), Err(BlkIdError::Io(9)));
}

#[test]
fn full_probe_outcome_never_reports_ambivalence() {
    assert_eq!(full_probe_outcome(0, 9), Ok(ProbeState::Success));
    assert_eq!(full_probe_outcome(1, 9), Ok(ProbeState::NothingDetected));
    assert_eq!(full_probe_outcome(-2, 9), Err(BlkIdError::Io(9)));
    assert_eq!(full_probe_outcome(-1, 9), Err(BlkIdError::Io(9)));
}

#[test]
fn wipe_outcome_translates_the_tri_state() {
    assert_eq!(wipe_outcome(0, 9), Ok(ProbeState::Success));
    assert_eq!(wipe_outcome(1, 9), Ok(ProbeState::Done));
    assert_eq!(wipe_outcome(-1, 9), Err(BlkIdError::Io(9)));
}

#[test]
fn has_value_outcome_translates_presence() {
    assert_eq!(has_value_outcome(1, 9), Ok(true));
    assert_eq!(has_value_outcome(0, 9), Ok(false));
    assert_eq!(has_value_outcome(2, 9), Ok(false));
    assert_eq!(has_value_outcome(-1, 9), Err(BlkIdError::Io(9)));
}

#[test]
fn interior_nul_position_finds_the_first_nul() {
    assert_eq!(interior_nul_position("plain"), None);
    assert_eq!(interior_nul_position(""), None);
    assert_eq!(interior_nul_position("\0"), Some(0));
    assert_eq!(interior_nul_position("a\0b"), Some(1));
    assert_eq!(interior_nul_position("ab\0cd\0e"), Some(2));
}

#[test]
fn check_c_string_rejects_exactly_interior_nuls() {
    assert_eq!(check_c_string("/dev/sda"), Ok(()));
    assert_eq!(check_c_string(""), Ok(()));
    assert_eq!(check_c_string("/dev/\0sda"), Err(BlkIdError::Nul(5)));
}

#[test]
fn utf8_result_reads_valid_text() {
    assert_eq!(utf8_result(b"ext4"), Ok("ext4"));
    assert_eq!(utf8_result(b""), Ok(""));
    let accented = [0x61, 0xC3, 0xA9];
    assert_eq!(utf8_result(&accented), Ok("a\u{e9}"));
}

#[test]
fn utf8_result_reports_the_longest_valid_prefix() {
    let stray_byte = [0x61, 0x62, 0xFF, 0x63];
    assert_eq!(utf8_result(&stray_byte), Err(BlkIdError::Utf8(2)));
    let cut_sequence = [0xC3];
    assert_eq!(utf8_result(&cut_sequence), Err(BlkIdError::Utf8(0)));
    let cut_tail = [0x61, 0xE2, 0x82];
    assert_eq!(utf8_result(&cut_tail), Err(BlkIdError::Utf8(1)));
}

#[test]
fn superblocks_flags_default_reads_label_uuid_type_and_sectype() {
    assert_eq!(SuperblocksFlags::default().bits(), 0x6a);
    assert_eq!(SuperblocksFlags::default_flags().bits(), 0x6a);
    let built = SuperblocksFlags::label()
        .union(SuperblocksFlags::uuid())
        .union(SuperblocksFlags::fs_type())
        .union(SuperblocksFlags::sectype());
    assert_eq!(built, SuperblocksFlags::default());
}

#[test]
fn superblocks_flags_values_mirror_the_native_constants() {
    assert_eq!(SuperblocksFlags::empty().bits(), 0);
    assert_eq!(SuperblocksFlags::label().bits(), 1 << 1);
    assert_eq!(SuperblocksFlags::labelraw().bits(), 1 << 2);
    assert_eq!(SuperblocksFlags::uuid().bits(), 1 << 3);
    assert_eq!(SuperblocksFlags::uuidraw().bits(), 1 << 4);
    assert_eq!(SuperblocksFlags::fs_type().bits(), 1 << 5);
    assert_eq!(SuperblocksFlags::sectype().bits(), 1 << 6);
    assert_eq!(SuperblocksFlags::usage().bits(), 1 << 7);
    assert_eq!(SuperblocksFlags::version().bits(), 1 << 8);
    assert_eq!(SuperblocksFlags::magic().bits(), 1 << 9);
    assert_eq!(SuperblocksFlags::badcsum().bits(), 1 << 10);
}

#[test]
fn superblocks_flags_set_operations() {
    let mut flags = SuperblocksFlags::empty();
    flags.insert(SuperblocksFlags::label());
    flags.insert(SuperblocksFlags::magic());
    assert!(flags.contains(SuperblocksFlags::label()));
    assert!(flags.contains(SuperblocksFlags::magic()));
    assert!(!flags.contains(SuperblocksFlags::uuid()));
    flags.remove(SuperblocksFlags::label());
    assert!(!flags.contains(SuperblocksFlags::label()));
    assert_eq!(flags, SuperblocksFlags::magic());
}

#[test]
fn partitions_flags_values_mirror_the_native_constants() {
    assert_eq!(PartitionsFlags::empty().bits(), 0);
    assert_eq!(PartitionsFlags::force_gpt().bits(), 1 << 1);
    assert_eq!(PartitionsFlags::entry_details().bits(), 1 << 2);
    assert_eq!(PartitionsFlags::magic().bits(), 1 << 3);
    let both = PartitionsFlags::force_gpt().union(PartitionsFlags::magic());
    assert_eq!(both.bits(), 0xa);
    assert!(both.contains(PartitionsFlags::force_gpt()));
    assert!(!both.contains(PartitionsFlags::entry_details()));
}

#[test]
fn get_dev_flags_values_mirror_the_native_constants() {
    assert_eq!(GetDevFlags::find().bits(), 0x0);
    assert_eq!(GetDevFlags::create().bits(), 0x1);
    assert_eq!(GetDevFlags::verify().bits(), 0x2);
    assert_eq!(GetDevFlags::normal().bits(), 0x3);
    assert_eq!(
        GetDevFlags::create().union(GetDevFlags::verify()),
        GetDevFlags::normal()
    );
    assert!(GetDevFlags::normal().contains(GetDevFlags::create()));
}
