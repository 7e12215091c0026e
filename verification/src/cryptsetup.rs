//! The `cryptsetup` invocations and how their exit status is read.
use vstd::prelude::*;
use crate::messages::{host_err_code, host_message_code, HostErr, HostMessage};

verus! {

/// The character of the decimal digit `d`.
pub open spec fn digit_char(d: nat) -> char {
    (48 + d) as char
}

/// The decimal notation of `n`, without sign or leading zeros, as
/// `u64::to_string` writes it.
pub open spec fn decimal(n: nat) -> Seq<char>
    decreases n,
{
    if n < 10 {
        seq![digit_char(n)]
    } else {
        decimal(n / 10) + seq![digit_char(n % 10)]
    }
}

fn digit_str(d: u64) -> (s: &'static str)
    requires
        d < 10,
    ensures
        s@ == seq![digit_char(d as nat)],
{
    proof {
        reveal_strlit("0");
        reveal_strlit("1");
        reveal_strlit("2");
        reveal_strlit("3");
        reveal_strlit("4");
        reveal_strlit("5");
        reveal_strlit("6");
        reveal_strlit("7");
        reveal_strlit("8");
        reveal_strlit("9");
    }
    if d == 0 {
        "0"
    } else if d == 1 {
        "1"
    } else if d == 2 {
        "2"
    } else if d == 3 {
        "3"
    } else if d == 4 {
        "4"
    } else if d == 5 {
        "5"
    } else if d == 6 {
        "6"
    } else if d == 7 {
        "7"
    } else if d == 8 {
        "8"
    } else {
        "9"
    }
}

/// The decimal notation of `n`.
pub fn decimal_string(n: u64) -> (s: String)
    ensures
        s@ == decimal(n as nat),
    decreases n,
{
    if n < 10 {
        String::from_str(digit_str(n))
    } else {
        let mut s = decimal_string(n / 10);
        s.append(digit_str(n % 10));
        s
    }
}

/// The views of a list of strings.
pub open spec fn texts(v: Seq<String>) -> Seq<Seq<char>> {
    v.map_values(|s: String| s@)
}

/// Arguments of `cryptsetup` that unlock `disk` as `name` with a 32-byte
/// keyfile read from standard input.
pub open spec fn open_args(disk: Seq<char>, name: Seq<char>) -> Seq<Seq<char>> {
    seq!["open"@, "--key-file"@, "-"@, "--keyfile-size"@, "32"@, "--batch-mode"@, disk, name]
}

/// Arguments of `cryptsetup` that add a key slot to `disk` for a 32-byte
/// keyfile, proving the right to do so with a passphrase of `pass_len`
/// bytes; both come on standard input, the passphrase first.
pub open spec fn add_key_args(disk: Seq<char>, pass_len: nat) -> Seq<Seq<char>> {
    seq![
        "luksAddKey"@,
        disk,
        "--batch-mode"@,
        "--key-file=-"@,
        "--keyfile-size"@,
        decimal(pass_len),
        "--new-keyfile=-"@,
        "--new-keyfile-size=32"@,
    ]
}

/// Arguments of `cryptsetup` that remove key slot `slot` of `disk`,
/// authorised by a 32-byte keyfile read from standard input.
pub open spec fn kill_slot_args(disk: Seq<char>, slot: nat) -> Seq<Seq<char>> {
    seq!["luksKillSlot"@, "--key-file=-"@, "--keyfile-size=32"@, disk, decimal(slot)]
}

/// The arguments that unlock `disk` as `name`.
pub fn luks_open_args(disk: &str, name: &str) -> (args: Vec<String>)
    ensures
        texts(args@) == open_args(disk@, name@),
{
    let mut args: Vec<String> = Vec::new();
    args.push(String::from_str("open"));
    args.push(String::from_str("--key-file"));
    args.push(String::from_str("-"));
    args.push(String::from_str("--keyfile-size"));
    args.push(String::from_str("32"));
    args.push(String::from_str("--batch-mode"));
    args.push(String::from_str(disk));
    args.push(String::from_str(name));
    proof {
        assert(texts(args@) =~= open_args(disk@, name@));
    }
    args
}

/// The arguments that add a key slot to `disk`.
pub fn luks_add_key_args(disk: &str, pass_len: usize) -> (args: Vec<String>)
    ensures
        texts(args@) == add_key_args(disk@, pass_len as nat),
        crate::enroll::digits_value(texts(args@)[5]) == pass_len,
{
    let mut args: Vec<String> = Vec::new();
    args.push(String::from_str("luksAddKey"));
    args.push(String::from_str(disk));
    args.push(String::from_str("--batch-mode"));
    args.push(String::from_str("--key-file=-"));
    args.push(String::from_str("--keyfile-size"));
    args.push(decimal_string(pass_len as u64));
    args.push(String::from_str("--new-keyfile=-"));
    args.push(String::from_str("--new-keyfile-size=32"));
    proof {
        assert(texts(args@) =~= add_key_args(disk@, pass_len as nat));
        crate::laws::law_cryptsetup_numbers_read_back(disk@, pass_len as nat);
    }
    args
}

/// The arguments that remove key slot `slot` of `disk`.
pub fn luks_kill_slot_args(disk: &str, slot: u8) -> (args: Vec<String>)
    ensures
        texts(args@) == kill_slot_args(disk@, slot as nat),
{
    let mut args: Vec<String> = Vec::new();
    args.push(String::from_str("luksKillSlot"));
    args.push(String::from_str("--key-file=-"));
    args.push(String::from_str("--keyfile-size=32"));
    args.push(String::from_str(disk));
    args.push(decimal_string(slot as u64));
    proof {
        assert(texts(args@) =~= kill_slot_args(disk@, slot as nat));
    }
    args
}

/// How a finished `cryptsetup` went: no exit code means it was killed, 0
/// is success, any other code is an error (such as a wrong passphrase).
pub fn cryptsetup_result(code: Option<i32>) -> (r: Result<(), HostErr>)
    ensures
        code is None ==> r == Err::<(), HostErr>(HostErr::CryptsetupKilled),
        code == Some(0i32) ==> r is Ok,
        code matches Some(c) && c != 0 ==> r == Err::<(), HostErr>(HostErr::CryptsetupErr),
{
    match code {
        None => Err(HostErr::CryptsetupKilled),
        Some(0) => Ok(()),
        Some(_) => Err(HostErr::CryptsetupErr),
    }
}

/// The byte that tells the TKey how unlocking went: `DecryptionSuccess`
/// on success, `DecryptionError` otherwise.
pub fn verdict_byte(r: &Result<(), HostErr>) -> (b: u8)
    ensures
        r is Ok ==> b == host_message_code(HostMessage::DecryptionSuccess),
        r is Err ==> b == host_err_code(HostErr::DecryptionError),
{
    match r {
        Ok(()) => HostMessage::DecryptionSuccess.code(),
        Err(_) => HostErr::DecryptionError.code(),
    }
}

} // verus!
