use vstd::prelude::*;

use r2d2_redis::redis::Cmd;
use vstd::string::StringSliceAdditionalSpecFns;

verus! {

#[verifier::external_type_specification]
#[verifier::external_body]
pub struct ExCmd(r2d2_redis::redis::Cmd);

/// The arguments a cache command holds, its name first.
pub uninterp spec fn cmd_args(c: Cmd) -> Seq<Seq<u8>>;

/// Relies on redis's `Cmd::new`: a command with no arguments yet.
#[verifier::external_body]
fn new_cmd() -> (c: Cmd)
    ensures
        cmd_args(c) == Seq::<Seq<u8>>::empty(),
{
    Cmd::new()
}

/// Relies on redis's `Cmd::arg` for a byte slice: the bytes, as they are,
/// become one more argument.
#[verifier::external_body]
fn push_arg(c: &mut Cmd, a: &[u8])
    ensures
        cmd_args(*final(c)) == cmd_args(*old(c)).push(a@),
{
    c.arg(a);
}

/// The decimal digits of `n` in ASCII, without leading zeros.
pub open spec fn decimal_text(n: nat) -> Seq<u8>
    decreases n,
{
    if n < 10 {
        seq![(48 + n) as u8]
    } else {
        decimal_text(n / 10).push((48 + n % 10) as u8)
    }
}

/// Writes `n` in decimal ASCII digits.
pub fn decimal_bytes(n: u64) -> (r: Vec<u8>)
    ensures
        r@ == decimal_text(n as nat),
    decreases n,
{
    if n < 10 {
        let mut v: Vec<u8> = Vec::new();
        v.push((48 + n) as u8);
        v
    } else {
        let mut v = decimal_bytes(n / 10);
        v.push((48 + n % 10) as u8);
        v
    }
}

fn command(name: &str, key: &str) -> (c: Cmd)
    ensures
        cmd_args(c) == seq![name.spec_bytes(), key.spec_bytes()],
{
    let mut c = new_cmd();
    push_arg(&mut c, name.as_bytes());
    push_arg(&mut c, key.as_bytes());
    c
}

/// The command that stores `value` under `key`, replacing what was there.
pub fn set(key: &str, value: &str) -> (c: Cmd)
    ensures
        cmd_args(c) == seq!["SET".spec_bytes(), key.spec_bytes(), value.spec_bytes()],
{
    let mut c = command("SET", key);
    push_arg(&mut c, value.as_bytes());
    c
}

/// The command that reads the value under `key`.
pub fn get(key: &str) -> (c: Cmd)
    ensures
        cmd_args(c) == seq!["GET".spec_bytes(), key.spec_bytes()],
{
    command("GET", key)
}

/// The command that lets the entry under `key` expire after `seconds`.
pub fn expire(key: &str, seconds: usize) -> (c: Cmd)
    ensures
        cmd_args(c) == seq!["EXPIRE".spec_bytes(), key.spec_bytes(), decimal_text(seconds as nat)],
{
    let mut c = command("EXPIRE", key);
    let digits = decimal_bytes(seconds as u64);
    push_arg(&mut c, digits.as_slice());
    c
}

} // verus!
