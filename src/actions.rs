//! The catalog of tray actions, the generators behind them, and the decision
//! that a click on a menu item leads to.
use crate::sources::{
    fraction_nanos, local_offset_at, new_v4_bytes, random_byte, rfc3339_of, rfc3339_text,
    since_unix_epoch, system_now, uuid_hyphenated, whole_seconds, LocalStamp,
    MAX_STAMP_SECONDS,
};
use crate::text::{
    decimal_of, decimal_string, hex_of, hex_string, is_canonical_decimal, is_hex32,
    is_mac_shape, is_uuid_v4_shape, lemma_hex32_shape, lemma_uuid_v4_shape, mac_string,
    mac_text, uuid_text,
};
use vstd::prelude::*;

verus! {

/// One leaf of the tray menu.
#[derive(Clone, Copy, Debug, PartialEq, Eq, Structural)]
pub enum Action {
    GetTimeUnix,
    GetTimeIso,
    GenerateUuid,
    GenerateMac,
    GenerateRandom32String,
    Quit,
}

/// What the host is to do after a click.
#[derive(Debug)]
pub enum Command {
    /// Write this value to the clipboard, once.
    Copy(String),
    /// Terminate the process with exit code 0, writing nothing.
    Quit,
    /// Do nothing: the identifier names no action.
    Ignore,
    /// The action could not produce its value (a clock before the epoch, or
    /// past `MAX_STAMP_SECONDS`); nothing is written.
    Failed,
}

/// The stable identifier of each action.
pub open spec fn action_id(a: Action) -> Seq<char> {
    match a {
        Action::GetTimeUnix => "get_time_unix"@,
        Action::GetTimeIso => "get_time_iso"@,
        Action::GenerateUuid => "generate_uuid"@,
        Action::GenerateMac => "generate_mac"@,
        Action::GenerateRandom32String => "generate_random_32_string"@,
        Action::Quit => "quit"@,
    }
}

/// The text of each action's menu item.
pub open spec fn action_label(a: Action) -> Seq<char> {
    match a {
        Action::GetTimeUnix => "UNIX"@,
        Action::GetTimeIso => "ISO"@,
        Action::GenerateUuid => "UUID v4"@,
        Action::GenerateMac => "Mac Address"@,
        Action::GenerateRandom32String => "Random 32 String"@,
        Action::Quit => "Quit"@,
    }
}

/// The action an identifier names, if any.
pub open spec fn action_named(s: Seq<char>) -> Option<Action> {
    if s == action_id(Action::GetTimeUnix) {
        Some(Action::GetTimeUnix)
    } else if s == action_id(Action::GetTimeIso) {
        Some(Action::GetTimeIso)
    } else if s == action_id(Action::GenerateUuid) {
        Some(Action::GenerateUuid)
    } else if s == action_id(Action::GenerateMac) {
        Some(Action::GenerateMac)
    } else if s == action_id(Action::GenerateRandom32String) {
        Some(Action::GenerateRandom32String)
    } else if s == action_id(Action::Quit) {
        Some(Action::Quit)
    } else {
        None
    }
}

/// The actions whose value is read from a clock, and which may fail.
pub open spec fn reads_clock(a: Action) -> bool {
    a == Action::GetTimeUnix || a == Action::GetTimeIso
}

/// What a value produced by action `a` looks like.
pub open spec fn fits(a: Action, s: Seq<char>) -> bool {
    match a {
        Action::GetTimeUnix => is_canonical_decimal(s) && exists|n: u64| s == decimal_of(n as nat),
        Action::GetTimeIso => exists|t: LocalStamp|
            t.wf() && t.in_range() && s == rfc3339_of(t.seconds as int, t.nanos as int, t.offset_seconds as int),
        Action::GenerateUuid => is_uuid_v4_shape(s) && exists|b: Seq<u8>|
            b.len() == 16 && b[6] as int / 16 == 4 && b[8] as int / 64 == 2 && s == uuid_text(b),
        Action::GenerateMac => is_mac_shape(s) && exists|b: Seq<u8>| b.len() == 6 && s == mac_text(b),
        Action::GenerateRandom32String => is_hex32(s) && exists|b: Seq<u8>|
            b.len() == 16 && s == hex_of(b),
        Action::Quit => false,
    }
}

/// Every action of the catalog is found again under its own identifier: no
/// two actions share one, and none is left without a handler.
pub proof fn lemma_ids_name_their_actions(a: Action)
    ensures
        action_named(action_id(a)) == Some(a),
{
    reveal_strlit("get_time_unix");
    reveal_strlit("get_time_iso");
    reveal_strlit("generate_uuid");
    reveal_strlit("generate_mac");
    reveal_strlit("generate_random_32_string");
    reveal_strlit("quit");
    assert(action_id(Action::GetTimeUnix).len() == 13);
    assert(action_id(Action::GetTimeIso).len() == 12);
    assert(action_id(Action::GenerateUuid).len() == 13);
    assert(action_id(Action::GenerateMac).len() == 12);
    assert(action_id(Action::GenerateRandom32String).len() == 25);
    assert(action_id(Action::Quit).len() == 4);
    assert(action_id(Action::GetTimeUnix) != action_id(Action::GenerateUuid)) by {
        assert(action_id(Action::GetTimeUnix)[2] != action_id(Action::GenerateUuid)[2]);
    }
    assert(action_id(Action::GetTimeIso) != action_id(Action::GenerateMac)) by {
        assert(action_id(Action::GetTimeIso)[2] != action_id(Action::GenerateMac)[2]);
    }
}

/// True where `a` and `b` hold the same characters.
fn same_text(a: &str, b: &str) -> (r: bool)
    ensures
        r == (a@ == b@),
{
    let x = a.to_owned();
    let y = b.to_owned();
    x == y
}

impl Action {
    /// The stable identifier of this action.
    pub fn id(&self) -> (r: &'static str)
        ensures
            r@ == action_id(*self),
    {
        match self {
            Action::GetTimeUnix => "get_time_unix",
            Action::GetTimeIso => "get_time_iso",
            Action::GenerateUuid => "generate_uuid",
            Action::GenerateMac => "generate_mac",
            Action::GenerateRandom32String => "generate_random_32_string",
            Action::Quit => "quit",
        }
    }

    /// The text of this action's menu item.
    pub fn label(&self) -> (r: &'static str)
        ensures
            r@ == action_label(*self),
    {
        match self {
            Action::GetTimeUnix => "UNIX",
            Action::GetTimeIso => "ISO",
            Action::GenerateUuid => "UUID v4",
            Action::GenerateMac => "Mac Address",
            Action::GenerateRandom32String => "Random 32 String",
            Action::Quit => "Quit",
        }
    }

    /// The action that `id` names, or `None` for an identifier outside the
    /// catalog.
    pub fn from_id(id: &str) -> (r: Option<Action>)
        ensures
            r == action_named(id@),
    {
        if same_text(id, "get_time_unix") {
            Some(Action::GetTimeUnix)
        } else if same_text(id, "get_time_iso") {
            Some(Action::GetTimeIso)
        } else if same_text(id, "generate_uuid") {
            Some(Action::GenerateUuid)
        } else if same_text(id, "generate_mac") {
            Some(Action::GenerateMac)
        } else if same_text(id, "generate_random_32_string") {
            Some(Action::GenerateRandom32String)
        } else if same_text(id, "quit") {
            Some(Action::Quit)
        } else {
            None
        }
    }
}

/// The current time as whole seconds since the Unix epoch, in decimal; `None`
/// where the clock reads before the epoch.
pub fn get_time_unix() -> (r: Option<String>)
    ensures
        r matches Some(s) ==> fits(Action::GetTimeUnix, s@),
{
    let now = system_now();
    match since_unix_epoch(&now) {
        Some(d) => {
            let secs = whole_seconds(&d);
            let s = decimal_string(secs);
            Some(s)
        },
        None => None,
    }
}

/// The instant `t` as RFC 3339 text at its own offset; `None` exactly where
/// the offset is a day or more, and possibly for an instant out of range.
pub fn rfc3339_string(t: &LocalStamp) -> (r: Option<String>)
    ensures
        r matches Some(s) ==> s@ == rfc3339_of(t.seconds as int, t.nanos as int, t.offset_seconds as int),
        !t.wf() ==> r is None,
        t.wf() && t.in_range() ==> r is Some,
{
    rfc3339_text(t)
}

/// The current local time as RFC 3339 text with the local offset at that
/// instant; `None` only where the clock reads before the epoch or past
/// `MAX_STAMP_SECONDS`.
pub fn get_time_iso() -> (r: Option<String>)
    ensures
        r matches Some(s) ==> fits(Action::GetTimeIso, s@),
{
    let now = system_now();
    match since_unix_epoch(&now) {
        Some(d) => {
            let secs = whole_seconds(&d);
            let nanos = fraction_nanos(&d);
            if secs > MAX_STAMP_SECONDS as u64 {
                None
            } else {
                match local_offset_at(secs as i64, nanos) {
                    Some(offset) => {
                        let t = LocalStamp { seconds: secs as i64, nanos, offset_seconds: offset };
                        rfc3339_string(&t)
                    },
                    None => None,
                }
            }
        },
        None => None,
    }
}

/// Sixteen bytes in the hyphenated 8-4-4-4-12 form, lower-case.
pub fn uuid_string(b: [u8; 16]) -> (r: String)
    ensures
        r@ == uuid_text(b@),
{
    uuid_hyphenated(b)
}

/// A fresh random version-4 identifier, lower-case and hyphenated.
pub fn generate_uuid() -> (r: String)
    ensures
        fits(Action::GenerateUuid, r@),
{
    let b = new_v4_bytes();
    proof {
        lemma_uuid_v4_shape(b@);
    }
    uuid_string(b)
}

/// Six freshly drawn random bytes as `xx:xx:xx:xx:xx:xx`.
pub fn generate_mac() -> (r: String)
    ensures
        fits(Action::GenerateMac, r@),
{
    let b: [u8; 6] = [
        random_byte(),
        random_byte(),
        random_byte(),
        random_byte(),
        random_byte(),
        random_byte(),
    ];
    mac_string(&b)
}

/// Sixteen freshly drawn random bytes as 32 lower-case hexadecimal digits,
/// in the order drawn.
pub fn generate_random_32_string() -> (r: String)
    ensures
        fits(Action::GenerateRandom32String, r@),
{
    let mut b: Vec<u8> = Vec::new();
    let mut i: usize = 0;
    while i < 16
        invariant
            i <= 16,
            b@.len() == i,
        decreases 16 - i,
    {
        b.push(random_byte());
        i = i + 1;
    }
    proof {
        lemma_hex32_shape(b@);
    }
    hex_string(b.as_slice())
}

/// The value of a generator action; `None` for `Quit` and for a clock action
/// that could not read the time.
pub fn generate(a: Action) -> (r: Option<String>)
    ensures
        a == Action::Quit ==> r is None,
        !reads_clock(a) && a != Action::Quit ==> r is Some,
        r matches Some(s) ==> fits(a, s@),
{
    match a {
        Action::GetTimeUnix => get_time_unix(),
        Action::GetTimeIso => get_time_iso(),
        Action::GenerateUuid => Some(generate_uuid()),
        Action::GenerateMac => Some(generate_mac()),
        Action::GenerateRandom32String => Some(generate_random_32_string()),
        Action::Quit => None,
    }
}

/// What the host does for a click on the item with identifier `id`: exactly
/// one clipboard write of the generated value, or exit, or nothing.
pub fn dispatch(id: &str) -> (c: Command)
    ensures
        match action_named(id@) {
            None => c is Ignore,
            Some(Action::Quit) => c is Quit,
            Some(a) => match c {
                Command::Copy(v) => fits(a, v@),
                Command::Failed => reads_clock(a),
                _ => false,
            },
        },
{
    match Action::from_id(id) {
        None => Command::Ignore,
        Some(Action::Quit) => Command::Quit,
        Some(a) => match generate(a) {
            Some(v) => Command::Copy(v),
            None => Command::Failed,
        },
    }
}

} // verus!
