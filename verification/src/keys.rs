//! The push-to-talk key: from its configured name to a key of `device_query`.

use crate::config::{default_ptt_key, AppConfig};
use device_query::Keycode;
use std::str::FromStr;
use vstd::prelude::*;

verus! {

/// `Keycode` of `device_query`, a key of the keyboard. Nothing is assumed
/// of what is inside: keys are only parsed, compared and passed on.
#[verifier::external_type_specification]
#[verifier::external_body]
pub struct ExKeycode(Keycode);

/// What `Keycode::from_str` of `device_query` makes of `name`: the key of
/// that name, or `None` where it fails.
pub uninterp spec fn keycode_named(name: Seq<char>) -> Option<Keycode>;

/// The key that is polled for the configured name `name`: the key of that
/// name, or the default key where `name` names none.
pub open spec fn ptt_keycode_for(name: Seq<char>) -> Keycode {
    match keycode_named(name) {
        Some(key) => key,
        None => keycode_named(default_ptt_key())->0,
    }
}

/// `Keycode::from_str` of `device_query`, which matches `name` against the
/// names of its keys and fails on any other string. Trusted: the result
/// depends on `name` alone, and the name of the default key, `RControl`, is
/// among the names it knows.
#[verifier::external_body]
fn parse_keycode(name: &str) -> (r: Option<Keycode>)
    ensures
        r == keycode_named(name@),
        name@ == default_ptt_key() ==> r is Some,
{
    Keycode::from_str(name).ok()
}

impl AppConfig {
    /// The key to poll: the configured one, or the default where the
    /// configured name is not the name of a key.
    pub fn get_ptt_keycode(&self) -> (key: Keycode)
        ensures
            key == ptt_keycode_for(self.ptt_key@),
    {
        match parse_keycode(self.ptt_key.as_str()) {
            Some(key) => key,
            None => {
                let fallback = parse_keycode("RControl");
                fallback.unwrap()
            },
        }
    }

    /// Whether the configured key name is the name of a key; where it is not,
    /// the default key is polled.
    pub fn ptt_key_is_known(&self) -> (known: bool)
        ensures
            known == keycode_named(self.ptt_key@) is Some,
    {
        parse_keycode(self.ptt_key.as_str()).is_some()
    }
}

/// `==` on two keys of `device_query`, whose `Keycode` is an enum without
/// fields with a derived `PartialEq`. Trusted: two keys compare equal exactly
/// when they are the same key.
#[verifier::external_body]
fn same_key(a: &Keycode, b: &Keycode) -> (r: bool)
    ensures
        r == (*a == *b),
{
    a == b
}

/// Whether the push-to-talk key is among the keys that a keyboard poll found
/// pressed.
pub fn ptt_is_held(pressed: &Vec<Keycode>, ptt_key: &Keycode) -> (held: bool)
    ensures
        held == pressed@.contains(*ptt_key),
{
    let n: usize = pressed.len();
    let mut i: usize = 0;
    while i < n
        invariant
            n == pressed@.len(),
            i <= n,
            forall|k: int| 0 <= k < i ==> pressed@[k] != *ptt_key,
        decreases n - i,
    {
        if same_key(&pressed[i], ptt_key) {
            return true;
        }
        i = i + 1;
    }
    false
}

} // verus!
