use tkey_luks::cryptsetup::{
    cryptsetup_result, decimal_string, luks_add_key_args, luks_kill_slot_args, luks_open_args,
    verdict_byte,
};
use tkey_luks::messages::HostErr;

#[test]
fn decimal_strings() {
    assert_eq!(decimal_string(0), "0");
    assert_eq!(decimal_string(7), "7");
    assert_eq!(decimal_string(10), "10");
    assert_eq!(decimal_string(255), "255");
    assert_eq!(decimal_string(1234567890), "1234567890");
    assert_eq!(decimal_string(u64::MAX), u64::MAX.to_string());
}

#[test]
fn open_arguments() {
    let args = luks_open_args("/dev/nvme0n1p3", "luks-1234");
    assert_eq!(
        args,
        vec!["open", "--key-file", "-", "--keyfile-size", "32", "--batch-mode", "/dev/nvme0n1p3", "luks-1234"]
    );
}

#[test]
fn add_key_arguments() {
    let args = luks_add_key_args("/dev/sda2", 17);
    assert_eq!(
        args,
        vec![
            "luksAddKey",
            "/dev/sda2",
            "--batch-mode",
            "--key-file=-",
            "--keyfile-size",
            "17",
            "--new-keyfile=-",
            "--new-keyfile-size=32"
        ]
    );
}

#[test]
fn kill_slot_arguments() {
    let args = luks_kill_slot_args("/dev/sda2", 3);
    assert_eq!(args, vec!["luksKillSlot", "--key-file=-", "--keyfile-size=32", "/dev/sda2", "3"]);
}

#[test]
fn exit_codes() {
    assert_eq!(cryptsetup_result(Some(0)), Ok(()));
    assert_eq!(cryptsetup_result(Some(2)), Err(HostErr::CryptsetupErr));
    assert_eq!(cryptsetup_result(Some(-1)), Err(HostErr::CryptsetupErr));
    assert_eq!(cryptsetup_result(None), Err(HostErr::CryptsetupKilled));
}

#[test]
fn verdict_bytes() {
    assert_eq!(verdict_byte(&Ok(())), 0x99);
    assert_eq!(verdict_byte(&Err(HostErr::CryptsetupErr)), 0x98);
    assert_eq!(verdict_byte(&Err(HostErr::CryptsetupKilled)), 0x98);
}
