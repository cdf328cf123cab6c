//! The container format of an embedded stub resource, and its parser.
//!
//! A resource is a single object of five fields — `entry`, `text`,
//! `text_start`, `data`, `data_start` — with unsigned 32-bit numeric values
//! for the addresses and unescaped printable strings for the payloads, in any
//! field order, with optional blanks between tokens.  The grammar is stated
//! as a character-level machine: `step` is one transition, `runp` folds it
//! over a prefix of the input, and `spec_parse` reads the final state.

use vstd::prelude::*;

verus! {

/// Mathematical content of a stub descriptor: the five fields of a parsed
/// resource record.
#[verifier::ext_equal]
pub ghost struct StubModel {
    /// Address where execution begins after load.
    pub entry: u32,
    /// Transport-encoded text segment payload.
    pub text: Seq<char>,
    /// Load address of the text segment.
    pub text_start: u32,
    /// Transport-encoded data segment payload.
    pub data: Seq<char>,
    /// Load address of the data segment.
    pub data_start: u32,
}

/// Which of the five record fields a key names.
#[derive(Clone, Copy, PartialEq, Eq, Structural)]
pub enum KeyId {
    Entry,
    Text,
    TextStart,
    Data,
    DataStart,
}

/// Position of the machine inside the record.
#[derive(Clone, Copy, PartialEq, Eq, Structural)]
pub enum PMode {
    /// Blanks before the opening brace.
    Start,
    /// After `{`: a first key or a closing brace may follow.
    FirstKey,
    /// After `,`: a key must follow.
    NextKey,
    /// Inside the quotes of a key.
    InKey,
    /// After the closing quote of a key, before `:`.
    AfterKey,
    /// After `:`, before the value.
    BeforeValue,
    /// Inside a numeric value.
    InNum,
    /// Inside the quotes of a string value.
    InStr,
    /// After a value, before `,` or `}`.
    AfterValue,
    /// After the closing brace: only blanks may follow.
    End,
    /// The input is not a well-formed record.
    Error,
}

/// Machine state: mode, the accumulators of the token being read, and the
/// fields committed so far.
pub ghost struct PState {
    pub mode: PMode,
    /// Characters of the key being read (valid in `InKey` and until `:`).
    pub key: Seq<char>,
    /// Field the value being read belongs to (valid from `:` to the commit).
    pub pending: KeyId,
    /// Value of the digits read so far (valid in `InNum`).
    pub num: nat,
    /// Characters of the string value read so far (valid in `InStr`).
    pub cur: Seq<char>,
    pub entry: Option<u32>,
    pub text: Option<Seq<char>>,
    pub text_start: Option<u32>,
    pub data: Option<Seq<char>>,
    pub data_start: Option<u32>,
}

/// A blank between tokens: space, tab, line feed or carriage return.
pub open spec fn is_ws(c: char) -> bool {
    c as int == 32 || c as int == 9 || c as int == 10 || c as int == 13
}

pub open spec fn is_digit(c: char) -> bool {
    48 <= c as int && c as int <= 57
}

pub open spec fn digit_val(c: char) -> int {
    c as int - 48
}

/// A character allowed inside quotes: printable, no quote, no backslash.
pub open spec fn is_str_char(c: char) -> bool {
    32 <= c as int && c as int <= 126 && c as int != 34 && c as int != 92
}

/// The field a key names, if it is one of the five of the record.
pub open spec fn key_id(k: Seq<char>) -> Option<KeyId> {
    if k.len() == 5 && k[0] == 'e' && k[1] == 'n' && k[2] == 't' && k[3] == 'r' && k[4] == 'y' {
        Some(KeyId::Entry)
    } else if k.len() == 4 && k[0] == 't' && k[1] == 'e' && k[2] == 'x' && k[3] == 't' {
        Some(KeyId::Text)
    } else if k.len() == 10 && k[0] == 't' && k[1] == 'e' && k[2] == 'x' && k[3] == 't' && k[4]
        == '_' && k[5] == 's' && k[6] == 't' && k[7] == 'a' && k[8] == 'r' && k[9] == 't' {
        Some(KeyId::TextStart)
    } else if k.len() == 4 && k[0] == 'd' && k[1] == 'a' && k[2] == 't' && k[3] == 'a' {
        Some(KeyId::Data)
    } else if k.len() == 10 && k[0] == 'd' && k[1] == 'a' && k[2] == 't' && k[3] == 'a' && k[4]
        == '_' && k[5] == 's' && k[6] == 't' && k[7] == 'a' && k[8] == 'r' && k[9] == 't' {
        Some(KeyId::DataStart)
    } else {
        None
    }
}

/// Keys whose value is a number; the other two take a string.
pub open spec fn is_num_key(k: KeyId) -> bool {
    match k {
        KeyId::Entry => true,
        KeyId::TextStart => true,
        KeyId::DataStart => true,
        KeyId::Text => false,
        KeyId::Data => false,
    }
}

/// Whether the field a key names has already been committed: a second
/// occurrence of a key is rejected.
pub open spec fn field_taken(st: PState, k: KeyId) -> bool {
    match k {
        KeyId::Entry => st.entry is Some,
        KeyId::Text => st.text is Some,
        KeyId::TextStart => st.text_start is Some,
        KeyId::Data => st.data is Some,
        KeyId::DataStart => st.data_start is Some,
    }
}

pub open spec fn to_error(st: PState) -> PState {
    PState { mode: PMode::Error, ..st }
}

/// Commit a finished numeric value to the pending field.
pub open spec fn commit_num(st: PState, v: u32) -> PState {
    match st.pending {
        KeyId::Entry => PState { entry: Some(v), ..st },
        KeyId::TextStart => PState { text_start: Some(v), ..st },
        KeyId::DataStart => PState { data_start: Some(v), ..st },
        KeyId::Text => st,
        KeyId::Data => st,
    }
}

/// Commit a finished string value to the pending field.
pub open spec fn commit_str(st: PState) -> PState {
    match st.pending {
        KeyId::Text => PState { text: Some(st.cur), ..st },
        KeyId::Data => PState { data: Some(st.cur), ..st },
        KeyId::Entry => st,
        KeyId::TextStart => st,
        KeyId::DataStart => st,
    }
}

/// Mode after the delimiter that ended a numeric value.
pub open spec fn after_num_mode(c: char) -> PMode {
    if c == ',' {
        PMode::NextKey
    } else if c == '}' {
        PMode::End
    } else {
        PMode::AfterValue
    }
}

/// One transition of the machine on one character.
pub open spec fn step(st: PState, c: char) -> PState {
    match st.mode {
        PMode::Start => if is_ws(c) {
            st
        } else if c == '{' {
            PState { mode: PMode::FirstKey, ..st }
        } else {
            to_error(st)
        },
        PMode::FirstKey => if is_ws(c) {
            st
        } else if c == '"' {
            PState { mode: PMode::InKey, key: Seq::empty(), ..st }
        } else if c == '}' {
            PState { mode: PMode::End, ..st }
        } else {
            to_error(st)
        },
        PMode::NextKey => if is_ws(c) {
            st
        } else if c == '"' {
            PState { mode: PMode::InKey, key: Seq::empty(), ..st }
        } else {
            to_error(st)
        },
        PMode::InKey => if c == '"' {
            PState { mode: PMode::AfterKey, ..st }
        } else if is_str_char(c) {
            PState { key: st.key.push(c), ..st }
        } else {
            to_error(st)
        },
        PMode::AfterKey => if is_ws(c) {
            st
        } else if c == ':' {
            match key_id(st.key) {
                Some(k) => if field_taken(st, k) {
                    to_error(st)
                } else {
                    PState { mode: PMode::BeforeValue, pending: k, ..st }
                },
                None => to_error(st),
            }
        } else {
            to_error(st)
        },
        PMode::BeforeValue => if is_ws(c) {
            st
        } else if is_digit(c) && is_num_key(st.pending) {
            PState { mode: PMode::InNum, num: digit_val(c) as nat, ..st }
        } else if c == '"' && !is_num_key(st.pending) {
            PState { mode: PMode::InStr, cur: Seq::empty(), ..st }
        } else {
            to_error(st)
        },
        PMode::InNum => if is_digit(c) {
            if st.num == 0 {
                // a leading zero makes the number malformed
                to_error(st)
            } else {
                PState { num: (st.num * 10 + digit_val(c)) as nat, ..st }
            }
        } else if is_ws(c) || c == ',' || c == '}' {
            if st.num <= 0xFFFF_FFFF {
                PState { mode: after_num_mode(c), ..commit_num(st, st.num as u32) }
            } else {
                // out of range for a 32-bit unsigned address
                to_error(st)
            }
        } else {
            to_error(st)
        },
        PMode::InStr => if c == '"' {
            PState { mode: PMode::AfterValue, ..commit_str(st) }
        } else if is_str_char(c) {
            PState { cur: st.cur.push(c), ..st }
        } else {
            to_error(st)
        },
        PMode::AfterValue => if is_ws(c) {
            st
        } else if c == ',' {
            PState { mode: PMode::NextKey, ..st }
        } else if c == '}' {
            PState { mode: PMode::End, ..st }
        } else {
            to_error(st)
        },
        PMode::End => if is_ws(c) {
            st
        } else {
            to_error(st)
        },
        PMode::Error => st,
    }
}

pub open spec fn init_state() -> PState {
    PState {
        mode: PMode::Start,
        key: Seq::empty(),
        pending: KeyId::Entry,
        num: 0,
        cur: Seq::empty(),
        entry: None,
        text: None,
        text_start: None,
        data: None,
        data_start: None,
    }
}

/// State of the machine after the first `i` characters of `s`.
pub open spec fn runp(s: Seq<char>, i: int) -> PState
    decreases i,
{
    if i <= 0 {
        init_state()
    } else {
        step(runp(s, i - 1), s[i - 1])
    }
}

/// What a resource text denotes: the machine must stand behind the closing
/// brace with all five fields committed; anything else is malformed.
pub open spec fn spec_parse(s: Seq<char>) -> Option<StubModel> {
    let st = runp(s, s.len() as int);
    if st.mode is End {
        match (st.entry, st.text, st.text_start, st.data, st.data_start) {
            (Some(e), Some(t), Some(ts), Some(d), Some(ds)) => Some(
                StubModel { entry: e, text: t, text_start: ts, data: d, data_start: ds },
            ),
            _ => None,
        }
    } else {
        None
    }
}

/// Decide `key_id` of the characters `start..end` of `s`.
pub(crate) fn key_id_exec(s: &str, start: usize, end: usize) -> (r: Option<KeyId>)
    requires
        start <= end <= s@.len(),
    ensures
        r == key_id(s@.subrange(start as int, end as int)),
{
    let n = end - start;
    if n == 5 && s.get_char(start) == 'e' && s.get_char(start + 1) == 'n' && s.get_char(start + 2)
        == 't' && s.get_char(start + 3) == 'r' && s.get_char(start + 4) == 'y' {
        Some(KeyId::Entry)
    } else if n == 4 && s.get_char(start) == 't' && s.get_char(start + 1) == 'e' && s.get_char(
        start + 2,
    ) == 'x' && s.get_char(start + 3) == 't' {
        Some(KeyId::Text)
    } else if n == 10 && s.get_char(start) == 't' && s.get_char(start + 1) == 'e' && s.get_char(
        start + 2,
    ) == 'x' && s.get_char(start + 3) == 't' && s.get_char(start + 4) == '_' && s.get_char(
        start + 5,
    ) == 's' && s.get_char(start + 6) == 't' && s.get_char(start + 7) == 'a' && s.get_char(
        start + 8,
    ) == 'r' && s.get_char(start + 9) == 't' {
        Some(KeyId::TextStart)
    } else if n == 4 && s.get_char(start) == 'd' && s.get_char(start + 1) == 'a' && s.get_char(
        start + 2,
    ) == 't' && s.get_char(start + 3) == 'a' {
        Some(KeyId::Data)
    } else if n == 10 && s.get_char(start) == 'd' && s.get_char(start + 1) == 'a' && s.get_char(
        start + 2,
    ) == 't' && s.get_char(start + 3) == 'a' && s.get_char(start + 4) == '_' && s.get_char(
        start + 5,
    ) == 's' && s.get_char(start + 6) == 't' && s.get_char(start + 7) == 'a' && s.get_char(
        start + 8,
    ) == 'r' && s.get_char(start + 9) == 't' {
        Some(KeyId::DataStart)
    } else {
        None
    }
}

} // verus!

