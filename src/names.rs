use vstd::prelude::*;

use crate::error::SerialError;

verus! {

/// The character of decimal digit `d`.
pub open spec fn digit_char(d: nat) -> char {
    if d == 0 { '0' } else if d == 1 { '1' } else if d == 2 { '2' } else if d == 3 { '3' }
    else if d == 4 { '4' } else if d == 5 { '5' } else if d == 6 { '6' } else if d == 7 { '7' }
    else if d == 8 { '8' } else { '9' }
}

/// `n` written in decimal, without leading zeros.
pub open spec fn decimal(n: nat) -> Seq<char>
    decreases n,
{
    if n < 10 {
        seq![digit_char(n)]
    } else {
        decimal(n / 10).push(digit_char(n % 10))
    }
}

/// The name of the numbered communications port `n`: `COM` and `n` in
/// decimal.
pub open spec fn com_name(n: nat) -> Seq<char> {
    seq!['C', 'O', 'M'] + decimal(n)
}

/// The path under which a named device opens: the device namespace prefix
/// `\\.\` before the name, which also reaches ports numbered above nine.
pub open spec fn namespace_path_of(name: Seq<char>) -> Seq<char> {
    seq!['\\', '\\', '.', '\\'] + name
}

/// The device names among the entries of a scan, in scan order: an entry
/// without a name is skipped.
pub open spec fn named(entries: Seq<Option<String>>) -> Seq<String>
    decreases entries.len(),
{
    if entries.len() == 0 {
        seq![]
    } else {
        let rest = named(entries.drop_last());
        match entries.last() {
            Some(n) => rest.push(n),
            None => rest,
        }
    }
}

fn digit_str(d: u8) -> (r: &'static str)
    requires
        d < 10,
    ensures
        r@ == seq![digit_char(d as nat)],
{
    proof {
        reveal_strlit("0");
        reveal_strlit("1");
        reveal_strlit("2");
        reveal_strlit("3");
        reveal_strlit("4");
        reveal_strlit("5");
        reveal_strlit("6");
        reveal_strlit("7");
        reveal_strlit("8");
        reveal_strlit("9");
    }
    match d {
        0 => "0",
        1 => "1",
        2 => "2",
        3 => "3",
        4 => "4",
        5 => "5",
        6 => "6",
        7 => "7",
        8 => "8",
        _ => "9",
    }
}

/// The name of communications port `n`, such as `COM7`.
pub fn com_port_name(n: u8) -> (r: String)
    ensures
        r@ == com_name(n as nat),
{
    proof {
        reveal_strlit("COM");
    }
    let mut name = String::from_str("COM");
    if n >= 100 {
        name.append(digit_str(n / 100));
    }
    if n >= 10 {
        name.append(digit_str((n / 10) % 10));
    }
    name.append(digit_str(n % 10));
    proof {
        let t = n as nat / 10;
        if n >= 100 {
            assert(t / 10 == n as nat / 100);
            assert(decimal(t / 10) == seq![digit_char(t / 10)]);
        }
        assert(n >= 10 ==> decimal(t) =~= if n >= 100 {
            seq![digit_char(t / 10), digit_char(t % 10)]
        } else {
            seq![digit_char(t)]
        });
    }
    assert(name@ =~= com_name(n as nat));
    name
}

/// The names of all communications ports that may exist, `COM0` to
/// `COM255`, in order: the candidates that enumeration asks about.
pub fn com_port_candidates() -> (r: Vec<String>)
    ensures
        r@.len() == 256,
        forall|i: int| 0 <= i < 256 ==> #[trigger] r@[i]@ == com_name(i as nat),
{
    let mut names: Vec<String> = Vec::new();
    let mut n: u16 = 0;
    while n < 256
        invariant
            n <= 256,
            names@.len() == n,
            forall|i: int| 0 <= i < n ==> #[trigger] names@[i]@ == com_name(i as nat),
        decreases 256 - n,
    {
        names.push(com_port_name(n as u8));
        n = n + 1;
    }
    names
}

/// The path under which the device `name` opens.
pub fn namespace_path(name: &str) -> (r: String)
    ensures
        r@ == namespace_path_of(name@),
{
    proof {
        reveal_strlit("\\\\.\\");
    }
    let mut path = String::from_str("\\\\.\\");
    path.append(name);
    path
}

/// The device list of a scan: `None` when the platform offers no way to
/// enumerate devices, which is `Unsupported` rather than an empty list;
/// otherwise one entry per device found, `None` for one without a name.
pub fn list_devices(scan: Option<Vec<Option<String>>>) -> (r: Result<Vec<String>, SerialError>)
    ensures
        match scan {
            None => r == Err::<Vec<String>, SerialError>(SerialError::Unsupported),
            Some(entries) => r matches Ok(names) && names@ == named(entries@),
        },
{
    match scan {
        None => Err(SerialError::Unsupported),
        Some(entries) => {
            let mut names: Vec<String> = Vec::new();
            let mut i: usize = 0;
            while i < entries.len()
                invariant
                    i <= entries@.len(),
                    names@ == named(entries@.subrange(0, i as int)),
                decreases entries@.len() - i,
            {
                assert(entries@.subrange(0, i + 1).drop_last() =~= entries@.subrange(0, i as int));
                match &entries[i] {
                    Some(n) => names.push(n.clone()),
                    None => {},
                }
                i = i + 1;
            }
            assert(entries@.subrange(0, entries@.len() as int) =~= entries@);
            Ok(names)
        },
    }
}

} // verus!
