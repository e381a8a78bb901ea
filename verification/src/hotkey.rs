use vstd::prelude::*;

use global_hotkey::hotkey::{HotKey, HotKeyParseError};

use crate::settings::DEFAULT_HOTKEY;
use crate::text::concat_strs;

verus! {

#[verifier::external_type_specification]
#[verifier::external_body]
pub struct ExHotKey(HotKey);

#[verifier::external_type_specification]
#[verifier::external_body]
pub struct ExHotKeyParseError(HotKeyParseError);

/// Whether `global_hotkey` accepts `s` as a hotkey (`HotKey::from_str`).
pub uninterp spec fn hotkey_accepted(s: Seq<char>) -> bool;

/// Calls `HotKey::from_str` (global_hotkey) on `s`. Claimed: it succeeds exactly
/// when `hotkey_accepted(s@)`. Which `HotKey` comes back is left unsaid: the
/// modifier that "CommandOrControl" stands for differs from one OS to another.
#[verifier::external_body]
fn parse_hotkey(s: &str) -> (r: Result<HotKey, HotKeyParseError>)
    ensures
        r is Ok <==> hotkey_accepted(s@),
{
    s.parse::<HotKey>()
}

/// The message given when a hotkey is refused.
pub open spec fn hotkey_refused_message(hotkey: Seq<char>) -> Seq<char> {
    "无法识别的快捷键: "@ + hotkey
}

/// The first step of saving settings: the new hotkey is checked before
/// anything is committed. `Ok` holds the shortcut to register.
pub fn check_hotkey(hotkey: &str) -> (r: Result<HotKey, String>)
    ensures
        r is Ok <==> hotkey_accepted(hotkey@),
        r matches Err(m) ==> m@ == hotkey_refused_message(hotkey@),
{
    match parse_hotkey(hotkey) {
        Ok(k) => Ok(k),
        Err(_) => Err(concat_strs("无法识别的快捷键: ", hotkey)),
    }
}

/// The shortcut to register at start-up: the configured one where it is
/// accepted, else `DEFAULT_HOTKEY`; the flag says whether the configured one
/// was taken. `None` where neither is accepted.
pub fn startup_shortcut(configured: &str) -> (r: Option<(HotKey, bool)>)
    ensures
        hotkey_accepted(configured@) ==> (r matches Some(p) && p.1),
        !hotkey_accepted(configured@) ==> (r is Some <==> hotkey_accepted(DEFAULT_HOTKEY@)),
        r matches Some(p) ==> (p.1 <==> hotkey_accepted(configured@)),
{
    match parse_hotkey(configured) {
        Ok(k) => Some((k, true)),
        Err(_) => match parse_hotkey(DEFAULT_HOTKEY) {
            Ok(k) => Some((k, false)),
            Err(_) => None,
        },
    }
}

} // verus!
