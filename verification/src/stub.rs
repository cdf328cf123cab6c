//! The stub descriptor: the runtime form of one parsed resource record, with
//! its typed accessors.

use vstd::prelude::*;

use crate::b64::{b64_decode, b64_ok, decode_base64};
use crate::parser::{
    key_id_exec, runp, spec_parse, step, KeyId, PMode, PState, StubModel,
};

verus! {

/// Why a resource could not be served.  Every variant stems from a defect in
/// the embedded build artifacts, never from external input, so callers treat
/// each as an unrecoverable startup-time fault.
#[derive(Clone, Copy, PartialEq, Eq, Debug, Structural)]
pub enum StubError {
    /// A variant without a catalog entry was requested.  The catalog is
    /// exhaustive over the closed `Chip` enumeration, so no operation of this
    /// library produces it; it names the contract violation for diagnostics.
    UnknownVariant,
    /// The resource text is not a well-formed record: bad container syntax, a
    /// missing field, or a numeric field out of 32-bit unsigned range.
    MalformedResource,
    /// A payload field is not valid transport-encoded (base64) data.
    EncodingError,
}

/// Flash stub descriptor: one resource record in memory.  Immutable after
/// construction; the segment accessors decode the payloads on demand.
#[derive(Clone, PartialEq, Eq, Debug)]
pub struct FlashStub {
    /// Entry point (address).
    entry: u32,
    /// Text segment (base64 encoded).
    text: String,
    /// Start of text section address.
    text_start: u32,
    /// Data segment (base64 encoded).
    data: String,
    /// Start of data section address.
    data_start: u32,
}

impl View for FlashStub {
    type V = StubModel;

    closed spec fn view(&self) -> StubModel {
        StubModel {
            entry: self.entry,
            text: self.text@,
            text_start: self.text_start,
            data: self.data@,
            data_start: self.data_start,
        }
    }
}

/// Parser state: the machine's mode, the bounds of the token being read, and
/// the fields committed so far.
struct ParseState {
    mode: PMode,
    /// First character of the key being read, one past its opening quote.
    kstart: usize,
    /// One past the last character of the key, its closing quote.
    kend: usize,
    pending: KeyId,
    /// Value of the digits read so far, exact while `over` is false.
    num: u64,
    /// The digits read so far exceed the 32-bit unsigned range.
    over: bool,
    /// First character of the string value being read.
    cstart: usize,
    entry: Option<u32>,
    text: Option<String>,
    text_start: Option<u32>,
    data: Option<String>,
    data_start: Option<u32>,
}

/// The executable state stands for the machine state `sp` after `i`
/// characters of `s`.
spec fn abs_ok(e: &ParseState, sp: PState, s: Seq<char>, i: int) -> bool {
    &&& e.mode == sp.mode
    &&& e.pending == sp.pending
    &&& sp.mode is InKey ==> e.kstart <= i <= s.len() && sp.key == s.subrange(
        e.kstart as int,
        i,
    )
    &&& sp.mode is AfterKey ==> e.kstart <= e.kend <= i && sp.key == s.subrange(
        e.kstart as int,
        e.kend as int,
    )
    &&& sp.mode is InNum ==> (e.over <==> sp.num > 0xFFFF_FFFF) && (!e.over ==> e.num == sp.num)
    &&& sp.mode is InStr ==> e.cstart <= i <= s.len() && sp.cur == s.subrange(
        e.cstart as int,
        i,
    )
    &&& e.entry == sp.entry
    &&& e.text_start == sp.text_start
    &&& e.data_start == sp.data_start
    &&& e.text.deep_view() == sp.text
    &&& e.data.deep_view() == sp.data
}

impl FlashStub {
    /// Fetch stub entry point.
    pub fn entry(&self) -> (r: u32)
        ensures
            r == self@.entry,
    {
        self.entry
    }

    /// Fetch text start address and bytes.
    pub fn text(&self) -> (r: Result<(u32, Vec<u8>), StubError>)
        ensures
            r matches Ok(p) <==> b64_ok(self@.text),
            r matches Ok(p) ==> p.0 == self@.text_start && p.1@ == b64_decode(self@.text),
            r matches Err(e) ==> e == StubError::EncodingError,
    {
        match decode_base64(self.text.as_str()) {
            Some(v) => Ok((self.text_start, v)),
            None => Err(StubError::EncodingError),
        }
    }

    /// Fetch data start address and bytes.
    pub fn data(&self) -> (r: Result<(u32, Vec<u8>), StubError>)
        ensures
            r matches Ok(p) <==> b64_ok(self@.data),
            r matches Ok(p) ==> p.0 == self@.data_start && p.1@ == b64_decode(self@.data),
            r matches Err(e) ==> e == StubError::EncodingError,
    {
        match decode_base64(self.data.as_str()) {
            Some(v) => Ok((self.data_start, v)),
            None => Err(StubError::EncodingError),
        }
    }

    /// Parse one serialized resource record into a descriptor.
    pub fn parse(s: &str) -> (r: Result<FlashStub, StubError>)
        ensures
            r matches Ok(stub) <==> spec_parse(s@) is Some,
            r matches Ok(stub) ==> Some(stub@) == spec_parse(s@),
            r matches Err(e) ==> e == StubError::MalformedResource,
    {
        let n = s.unicode_len();
        let mut e = ParseState {
            mode: PMode::Start,
            kstart: 0,
            kend: 0,
            pending: KeyId::Entry,
            num: 0,
            over: false,
            cstart: 0,
            entry: None,
            text: None,
            text_start: None,
            data: None,
            data_start: None,
        };
        proof {
            assert(abs_ok(&e, runp(s@, 0), s@, 0));
        }
        let mut i: usize = 0;
        while i < n
            invariant
                n == s@.len(),
                i <= n,
                abs_ok(&e, runp(s@, i as int), s@, i as int),
            decreases n - i,
        {
            let c = s.get_char(i);
            let v = c as u32;
            let ghost sp = runp(s@, i as int);
            let ghost sp2 = step(sp, s@[i as int]);
            proof {
                assert(runp(s@, i as int + 1) == sp2);
            }
            match e.mode {
                PMode::Start => {
                    if v == 32 || v == 9 || v == 10 || v == 13 {
                    } else if v == 123 {
                        e.mode = PMode::FirstKey;
                    } else {
                        e.mode = PMode::Error;
                    }
                },
                PMode::FirstKey => {
                    if v == 32 || v == 9 || v == 10 || v == 13 {
                    } else if v == 34 {
                        e.mode = PMode::InKey;
                        e.kstart = i + 1;
                        proof {
                            assert(s@.subrange(i as int + 1, i as int + 1)
                                =~= Seq::<char>::empty());
                        }
                    } else if v == 125 {
                        e.mode = PMode::End;
                    } else {
                        e.mode = PMode::Error;
                    }
                },
                PMode::NextKey => {
                    if v == 32 || v == 9 || v == 10 || v == 13 {
                    } else if v == 34 {
                        e.mode = PMode::InKey;
                        e.kstart = i + 1;
                        proof {
                            assert(s@.subrange(i as int + 1, i as int + 1)
                                =~= Seq::<char>::empty());
                        }
                    } else {
                        e.mode = PMode::Error;
                    }
                },
                PMode::InKey => {
                    if v == 34 {
                        e.mode = PMode::AfterKey;
                        e.kend = i;
                    } else if 32 <= v && v <= 126 && v != 92 {
                        proof {
                            assert(s@.subrange(e.kstart as int, i as int + 1) =~= s@.subrange(
                                e.kstart as int,
                                i as int,
                            ).push(s@[i as int]));
                        }
                    } else {
                        e.mode = PMode::Error;
                    }
                },
                PMode::AfterKey => {
                    if v == 32 || v == 9 || v == 10 || v == 13 {
                    } else if v == 58 {
                        match key_id_exec(s, e.kstart, e.kend) {
                            Some(k) => {
                                let taken = match k {
                                    KeyId::Entry => e.entry.is_some(),
                                    KeyId::Text => e.text.is_some(),
                                    KeyId::TextStart => e.text_start.is_some(),
                                    KeyId::Data => e.data.is_some(),
                                    KeyId::DataStart => e.data_start.is_some(),
                                };
                                if taken {
                                    e.mode = PMode::Error;
                                } else {
                                    e.mode = PMode::BeforeValue;
                                    e.pending = k;
                                }
                            },
                            None => {
                                e.mode = PMode::Error;
                            },
                        }
                    } else {
                        e.mode = PMode::Error;
                    }
                },
                PMode::BeforeValue => {
                    let numk = matches!(e.pending, KeyId::Entry | KeyId::TextStart | KeyId::DataStart);
                    if v == 32 || v == 9 || v == 10 || v == 13 {
                    } else if 48 <= v && v <= 57 && numk {
                        e.mode = PMode::InNum;
                        e.num = (v - 48) as u64;
                        e.over = false;
                    } else if v == 34 && !numk {
                        e.mode = PMode::InStr;
                        e.cstart = i + 1;
                        proof {
                            assert(s@.subrange(i as int + 1, i as int + 1)
                                =~= Seq::<char>::empty());
                        }
                    } else {
                        e.mode = PMode::Error;
                    }
                },
                PMode::InNum => {
                    if 48 <= v && v <= 57 {
                        if !e.over && e.num == 0 {
                            e.mode = PMode::Error;
                        } else if e.over {
                        } else {
                            let nn = e.num * 10 + (v - 48) as u64;
                            if nn > 0xFFFF_FFFF {
                                e.over = true;
                            }
                            e.num = nn;
                        }
                    } else if v == 32 || v == 9 || v == 10 || v == 13 || v == 44 || v == 125 {
                        if e.over {
                            e.mode = PMode::Error;
                        } else {
                            let val = e.num as u32;
                            match e.pending {
                                KeyId::Entry => e.entry = Some(val),
                                KeyId::TextStart => e.text_start = Some(val),
                                KeyId::DataStart => e.data_start = Some(val),
                                KeyId::Text => (),
                                KeyId::Data => (),
                            }
                            e.mode = if v == 44 {
                                PMode::NextKey
                            } else if v == 125 {
                                PMode::End
                            } else {
                                PMode::AfterValue
                            };
                        }
                    } else {
                        e.mode = PMode::Error;
                    }
                },
                PMode::InStr => {
                    if v == 34 {
                        let val = s.substring_char(e.cstart, i).to_owned();
                        match e.pending {
                            KeyId::Text => e.text = Some(val),
                            KeyId::Data => e.data = Some(val),
                            KeyId::Entry => (),
                            KeyId::TextStart => (),
                            KeyId::DataStart => (),
                        }
                        e.mode = PMode::AfterValue;
                    } else if 32 <= v && v <= 126 && v != 92 {
                        proof {
                            assert(s@.subrange(e.cstart as int, i as int + 1) =~= s@.subrange(
                                e.cstart as int,
                                i as int,
                            ).push(s@[i as int]));
                        }
                    } else {
                        e.mode = PMode::Error;
                    }
                },
                PMode::AfterValue => {
                    if v == 32 || v == 9 || v == 10 || v == 13 {
                    } else if v == 44 {
                        e.mode = PMode::NextKey;
                    } else if v == 125 {
                        e.mode = PMode::End;
                    } else {
                        e.mode = PMode::Error;
                    }
                },
                PMode::End => {
                    if v == 32 || v == 9 || v == 10 || v == 13 {
                    } else {
                        e.mode = PMode::Error;
                    }
                },
                PMode::Error => {},
            }
            proof {
                assert(abs_ok(&e, sp2, s@, i as int + 1));
            }
            i += 1;
        }
        if matches!(e.mode, PMode::End) {
            match (e.entry, e.text, e.text_start, e.data, e.data_start) {
                (Some(en), Some(t), Some(ts), Some(d), Some(ds)) => Ok(
                    FlashStub { entry: en, text: t, text_start: ts, data: d, data_start: ds },
                ),
                _ => Err(StubError::MalformedResource),
            }
        } else {
            Err(StubError::MalformedResource)
        }
    }
}

/// Decoding a stored payload is deterministic: any two decode results of the
/// same payload are byte-for-byte identical.
pub proof fn lemma_decode_stable(p: Seq<char>, r1: Seq<u8>, r2: Seq<u8>)
    requires
        r1 == b64_decode(p),
        r2 == b64_decode(p),
    ensures
        r1 == r2,
{
}

/// The segments decode independently: what the data segment decodes to is
/// fixed by the data payload alone, whatever the rest of the descriptor (the
/// text payload included) holds; by symmetry the same holds of the text
/// segment.
pub proof fn lemma_segments_independent(a: StubModel, b: StubModel)
    requires
        a.data == b.data,
    ensures
        b64_ok(a.data) == b64_ok(b.data),
        b64_decode(a.data) == b64_decode(b.data),
{
}

} // verus!
