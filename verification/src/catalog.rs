//! The embedded resource catalog: one serialized stub record for each
//! supported hardware variant, with proofs that every shipped record parses
//! and that the two decoded segments of each record occupy disjoint address
//! ranges.

use vstd::prelude::*;

use crate::b64::{b64_decode, b64_ok};
use crate::parser::{runp, spec_parse, KeyId, PMode, PState, StubModel};
use crate::stub::FlashStub;

verus! {

/// A supported hardware variant.  The enumeration is closed: each variant has
/// exactly one embedded resource, so the catalog lookup is total.
#[derive(Clone, Copy, PartialEq, Eq, Hash, Debug, Structural)]
pub enum Chip {
    Esp32,
    Esp32c2,
    Esp32c3,
    Esp32c6,
    Esp32h2,
    Esp32p4,
    Esp32s2,
    Esp32s3,
}

/// The serialized resource text embedded for a variant.
pub open spec fn catalog_text(chip: Chip) -> Seq<char> {
    match chip {
        Chip::Esp32 => "{\"entry\":1074332672,\"text\":\"NkEAgfj/4AgAHfAA\",\"text_start\":1074331648,\"data\":\"ABAAQKVaWqU=\",\"data_start\":1073610752}"@,
        Chip::Esp32c2 => "{\"entry\":1077412868,\"text\":\"QREGBpcCAACAgg==\",\"text_start\":1077411840,\"data\":\"ASAAQFql\",\"data_start\":1070202880}"@,
        Chip::Esp32c3 => "{\"entry\":1077412872,\"text\":\"QREi4AAQlxIAAICCAQA=\",\"text_start\":1077411840,\"data\":\"AjAAQBEiMw==\",\"data_start\":1070071808}"@,
        Chip::Esp32c6 => "{\"entry\":1082131472,\"text\":\"EwEB/iM8gQBngAAA\",\"text_start\":1082130432,\"data\":\"A0AAQERVZnc=\",\"data_start\":1082458112}"@,
        Chip::Esp32h2 => "{\"entry\":1082131476,\"text\":\"EwEB/SM8EQJngAAAEwA=\",\"text_start\":1082130432,\"data\":\"BFAAQIiZ\",\"data_start\":1082785792}"@,
        Chip::Esp32p4 => "{\"entry\":1341129760,\"text\":\"FwUAABMFRQBngAAA\",\"text_start\":1341128704,\"data\":\"BWAAQKq7zA==\",\"data_start\":1341390848}"@,
        Chip::Esp32s2 => "{\"entry\":1073906688,\"text\":\"NmEAofz/4AoAHfA=\",\"text_start\":1073905664,\"data\":\"BnAAQN3u\",\"data_start\":1073414144}"@,
        Chip::Esp32s3 => "{\"entry\":1077380104,\"text\":\"NkEAkfr/4AkAkB3w\",\"text_start\":1077379072,\"data\":\"B4AAQP8AEjQ=\",\"data_start\":1070104576}"@,
    }
}

/// The descriptor a variant's embedded resource denotes.
pub open spec fn stub_model(chip: Chip) -> StubModel {
    match chip {
        Chip::Esp32 => StubModel {
            entry: 1074332672u32,
            text: "NkEAgfj/4AgAHfAA"@,
            text_start: 1074331648u32,
            data: "ABAAQKVaWqU="@,
            data_start: 1073610752u32,
        },
        Chip::Esp32c2 => StubModel {
            entry: 1077412868u32,
            text: "QREGBpcCAACAgg=="@,
            text_start: 1077411840u32,
            data: "ASAAQFql"@,
            data_start: 1070202880u32,
        },
        Chip::Esp32c3 => StubModel {
            entry: 1077412872u32,
            text: "QREi4AAQlxIAAICCAQA="@,
            text_start: 1077411840u32,
            data: "AjAAQBEiMw=="@,
            data_start: 1070071808u32,
        },
        Chip::Esp32c6 => StubModel {
            entry: 1082131472u32,
            text: "EwEB/iM8gQBngAAA"@,
            text_start: 1082130432u32,
            data: "A0AAQERVZnc="@,
            data_start: 1082458112u32,
        },
        Chip::Esp32h2 => StubModel {
            entry: 1082131476u32,
            text: "EwEB/SM8EQJngAAAEwA="@,
            text_start: 1082130432u32,
            data: "BFAAQIiZ"@,
            data_start: 1082785792u32,
        },
        Chip::Esp32p4 => StubModel {
            entry: 1341129760u32,
            text: "FwUAABMFRQBngAAA"@,
            text_start: 1341128704u32,
            data: "BWAAQKq7zA=="@,
            data_start: 1341390848u32,
        },
        Chip::Esp32s2 => StubModel {
            entry: 1073906688u32,
            text: "NmEAofz/4AoAHfA="@,
            text_start: 1073905664u32,
            data: "BnAAQN3u"@,
            data_start: 1073414144u32,
        },
        Chip::Esp32s3 => StubModel {
            entry: 1077380104u32,
            text: "NkEAkfr/4AkAkB3w"@,
            text_start: 1077379072u32,
            data: "B4AAQP8AEjQ="@,
            data_start: 1070104576u32,
        },
    }
}

// Each embedded record is shown to parse by walking the machine over it in
// slices of twenty characters: one lemma per slice states the machine state
// the slice ends in, so that each proof only unfolds `runp` a bounded number
// of steps from the state the previous lemma established.
proof fn lemma_runp_esp32_20()
    ensures
        runp(catalog_text(Chip::Esp32), 20) == (PState {
            mode: PMode::NextKey,
            key: Seq::empty().push('e').push('n').push('t').push('r').push('y'),
            pending: KeyId::Entry,
            num: 1074332672nat,
            cur: Seq::empty(),
            entry: Some(1074332672u32),
            text: None,
            text_start: None,
            data: None,
            data_start: None,
        }),
{
    reveal_strlit("{\"entry\":1074332672,\"text\":\"NkEAgfj/4AgAHfAA\",\"text_start\":1074331648,\"data\":\"ABAAQKVaWqU=\",\"data_start\":1073610752}");
    reveal_with_fuel(runp, 21);
}

proof fn lemma_runp_esp32_40()
    ensures
        runp(catalog_text(Chip::Esp32), 40) == (PState {
            mode: PMode::InStr,
            key: Seq::empty().push('t').push('e').push('x').push('t'),
            pending: KeyId::Text,
            num: 1074332672nat,
            cur: Seq::empty().push('N').push('k').push('E').push('A').push('g').push('f').push('j').push('/').push('4').push('A').push('g').push('A'),
            entry: Some(1074332672u32),
            text: None,
            text_start: None,
            data: None,
            data_start: None,
        }),
{
    lemma_runp_esp32_20();
    reveal_strlit("{\"entry\":1074332672,\"text\":\"NkEAgfj/4AgAHfAA\",\"text_start\":1074331648,\"data\":\"ABAAQKVaWqU=\",\"data_start\":1073610752}");
    reveal_with_fuel(runp, 21);
}

proof fn lemma_runp_esp32_60()
    ensures
        runp(catalog_text(Chip::Esp32), 60) == (PState {
            mode: PMode::InNum,
            key: Seq::empty().push('t').push('e').push('x').push('t').push('_').push('s').push('t').push('a').push('r').push('t'),
            pending: KeyId::TextStart,
            num: 1nat,
            cur: Seq::empty().push('N').push('k').push('E').push('A').push('g').push('f').push('j').push('/').push('4').push('A').push('g').push('A').push('H').push('f').push('A').push('A'),
            entry: Some(1074332672u32),
            text: Some(Seq::empty().push('N').push('k').push('E').push('A').push('g').push('f').push('j').push('/').push('4').push('A').push('g').push('A').push('H').push('f').push('A').push('A')),
            text_start: None,
            data: None,
            data_start: None,
        }),
{
    lemma_runp_esp32_40();
    reveal_strlit("{\"entry\":1074332672,\"text\":\"NkEAgfj/4AgAHfAA\",\"text_start\":1074331648,\"data\":\"ABAAQKVaWqU=\",\"data_start\":1073610752}");
    reveal_with_fuel(runp, 21);
}

proof fn lemma_runp_esp32_80()
    ensures
        runp(catalog_text(Chip::Esp32), 80) == (PState {
            mode: PMode::InStr,
            key: Seq::empty().push('d').push('a').push('t').push('a'),
            pending: KeyId::Data,
            num: 1074331648nat,
            cur: Seq::empty().push('A').push('B'),
            entry: Some(1074332672u32),
            text: Some(Seq::empty().push('N').push('k').push('E').push('A').push('g').push('f').push('j').push('/').push('4').push('A').push('g').push('A').push('H').push('f').push('A').push('A')),
            text_start: Some(1074331648u32),
            data: None,
            data_start: None,
        }),
{
    lemma_runp_esp32_60();
    reveal_strlit("{\"entry\":1074332672,\"text\":\"NkEAgfj/4AgAHfAA\",\"text_start\":1074331648,\"data\":\"ABAAQKVaWqU=\",\"data_start\":1073610752}");
    reveal_with_fuel(runp, 21);
}

proof fn lemma_runp_esp32_100()
    ensures
        runp(catalog_text(Chip::Esp32), 100) == (PState {
            mode: PMode::InKey,
            key: Seq::empty().push('d').push('a').push('t').push('a').push('_').push('s').push('t'),
            pending: KeyId::Data,
            num: 1074331648nat,
            cur: Seq::empty().push('A').push('B').push('A').push('A').push('Q').push('K').push('V').push('a').push('W').push('q').push('U').push('='),
            entry: Some(1074332672u32),
            text: Some(Seq::empty().push('N').push('k').push('E').push('A').push('g').push('f').push('j').push('/').push('4').push('A').push('g').push('A').push('H').push('f').push('A').push('A')),
            text_start: Some(1074331648u32),
            data: Some(Seq::empty().push('A').push('B').push('A').push('A').push('Q').push('K').push('V').push('a').push('W').push('q').push('U').push('=')),
            data_start: None,
        }),
{
    lemma_runp_esp32_80();
    reveal_strlit("{\"entry\":1074332672,\"text\":\"NkEAgfj/4AgAHfAA\",\"text_start\":1074331648,\"data\":\"ABAAQKVaWqU=\",\"data_start\":1073610752}");
    reveal_with_fuel(runp, 21);
}

proof fn lemma_runp_esp32_116()
    ensures
        runp(catalog_text(Chip::Esp32), 116) == (PState {
            mode: PMode::End,
            key: Seq::empty().push('d').push('a').push('t').push('a').push('_').push('s').push('t').push('a').push('r').push('t'),
            pending: KeyId::DataStart,
            num: 1073610752nat,
            cur: Seq::empty().push('A').push('B').push('A').push('A').push('Q').push('K').push('V').push('a').push('W').push('q').push('U').push('='),
            entry: Some(1074332672u32),
            text: Some(Seq::empty().push('N').push('k').push('E').push('A').push('g').push('f').push('j').push('/').push('4').push('A').push('g').push('A').push('H').push('f').push('A').push('A')),
            text_start: Some(1074331648u32),
            data: Some(Seq::empty().push('A').push('B').push('A').push('A').push('Q').push('K').push('V').push('a').push('W').push('q').push('U').push('=')),
            data_start: Some(1073610752u32),
        }),
{
    lemma_runp_esp32_100();
    reveal_strlit("{\"entry\":1074332672,\"text\":\"NkEAgfj/4AgAHfAA\",\"text_start\":1074331648,\"data\":\"ABAAQKVaWqU=\",\"data_start\":1073610752}");
    reveal_with_fuel(runp, 17);
}

proof fn lemma_parses_esp32()
    ensures
        spec_parse(catalog_text(Chip::Esp32)) == Some(stub_model(Chip::Esp32)),
{
    let s = catalog_text(Chip::Esp32);
    lemma_runp_esp32_116();
    reveal_strlit("{\"entry\":1074332672,\"text\":\"NkEAgfj/4AgAHfAA\",\"text_start\":1074331648,\"data\":\"ABAAQKVaWqU=\",\"data_start\":1073610752}");
    reveal_strlit("NkEAgfj/4AgAHfAA");
    reveal_strlit("ABAAQKVaWqU=");
    assert(s.len() == 116);
    let pm = spec_parse(s);
    let sm = stub_model(Chip::Esp32);
    assert(pm matches Some(m) && m.text =~= sm.text && m.data =~= sm.data && m =~~= sm);
    assert(pm == Some(sm));
}

proof fn lemma_runp_esp32c2_20()
    ensures
        runp(catalog_text(Chip::Esp32c2), 20) == (PState {
            mode: PMode::NextKey,
            key: Seq::empty().push('e').push('n').push('t').push('r').push('y'),
            pending: KeyId::Entry,
            num: 1077412868nat,
            cur: Seq::empty(),
            entry: Some(1077412868u32),
            text: None,
            text_start: None,
            data: None,
            data_start: None,
        }),
{
    reveal_strlit("{\"entry\":1077412868,\"text\":\"QREGBpcCAACAgg==\",\"text_start\":1077411840,\"data\":\"ASAAQFql\",\"data_start\":1070202880}");
    reveal_with_fuel(runp, 21);
}

proof fn lemma_runp_esp32c2_40()
    ensures
        runp(catalog_text(Chip::Esp32c2), 40) == (PState {
            mode: PMode::InStr,
            key: Seq::empty().push('t').push('e').push('x').push('t'),
            pending: KeyId::Text,
            num: 1077412868nat,
            cur: Seq::empty().push('Q').push('R').push('E').push('G').push('B').push('p').push('c').push('C').push('A').push('A').push('C').push('A'),
            entry: Some(1077412868u32),
            text: None,
            text_start: None,
            data: None,
            data_start: None,
        }),
{
    lemma_runp_esp32c2_20();
    reveal_strlit("{\"entry\":1077412868,\"text\":\"QREGBpcCAACAgg==\",\"text_start\":1077411840,\"data\":\"ASAAQFql\",\"data_start\":1070202880}");
    reveal_with_fuel(runp, 21);
}

proof fn lemma_runp_esp32c2_60()
    ensures
        runp(catalog_text(Chip::Esp32c2), 60) == (PState {
            mode: PMode::InNum,
            key: Seq::empty().push('t').push('e').push('x').push('t').push('_').push('s').push('t').push('a').push('r').push('t'),
            pending: KeyId::TextStart,
            num: 1nat,
            cur: Seq::empty().push('Q').push('R').push('E').push('G').push('B').push('p').push('c').push('C').push('A').push('A').push('C').push('A').push('g').push('g').push('=').push('='),
            entry: Some(1077412868u32),
            text: Some(Seq::empty().push('Q').push('R').push('E').push('G').push('B').push('p').push('c').push('C').push('A').push('A').push('C').push('A').push('g').push('g').push('=').push('=')),
            text_start: None,
            data: None,
            data_start: None,
        }),
{
    lemma_runp_esp32c2_40();
    reveal_strlit("{\"entry\":1077412868,\"text\":\"QREGBpcCAACAgg==\",\"text_start\":1077411840,\"data\":\"ASAAQFql\",\"data_start\":1070202880}");
    reveal_with_fuel(runp, 21);
}

proof fn lemma_runp_esp32c2_80()
    ensures
        runp(catalog_text(Chip::Esp32c2), 80) == (PState {
            mode: PMode::InStr,
            key: Seq::empty().push('d').push('a').push('t').push('a'),
            pending: KeyId::Data,
            num: 1077411840nat,
            cur: Seq::empty().push('A').push('S'),
            entry: Some(1077412868u32),
            text: Some(Seq::empty().push('Q').push('R').push('E').push('G').push('B').push('p').push('c').push('C').push('A').push('A').push('C').push('A').push('g').push('g').push('=').push('=')),
            text_start: Some(1077411840u32),
            data: None,
            data_start: None,
        }),
{
    lemma_runp_esp32c2_60();
    reveal_strlit("{\"entry\":1077412868,\"text\":\"QREGBpcCAACAgg==\",\"text_start\":1077411840,\"data\":\"ASAAQFql\",\"data_start\":1070202880}");
    reveal_with_fuel(runp, 21);
}

proof fn lemma_runp_esp32c2_100()
    ensures
        runp(catalog_text(Chip::Esp32c2), 100) == (PState {
            mode: PMode::AfterKey,
            key: Seq::empty().push('d').push('a').push('t').push('a').push('_').push('s').push('t').push('a').push('r').push('t'),
            pending: KeyId::Data,
            num: 1077411840nat,
            cur: Seq::empty().push('A').push('S').push('A').push('A').push('Q').push('F').push('q').push('l'),
            entry: Some(1077412868u32),
            text: Some(Seq::empty().push('Q').push('R').push('E').push('G').push('B').push('p').push('c').push('C').push('A').push('A').push('C').push('A').push('g').push('g').push('=').push('=')),
            text_start: Some(1077411840u32),
            data: Some(Seq::empty().push('A').push('S').push('A').push('A').push('Q').push('F').push('q').push('l')),
            data_start: None,
        }),
{
    lemma_runp_esp32c2_80();
    reveal_strlit("{\"entry\":1077412868,\"text\":\"QREGBpcCAACAgg==\",\"text_start\":1077411840,\"data\":\"ASAAQFql\",\"data_start\":1070202880}");
    reveal_with_fuel(runp, 21);
}

proof fn lemma_runp_esp32c2_112()
    ensures
        runp(catalog_text(Chip::Esp32c2), 112) == (PState {
            mode: PMode::End,
            key: Seq::empty().push('d').push('a').push('t').push('a').push('_').push('s').push('t').push('a').push('r').push('t'),
            pending: KeyId::DataStart,
            num: 1070202880nat,
            cur: Seq::empty().push('A').push('S').push('A').push('A').push('Q').push('F').push('q').push('l'),
            entry: Some(1077412868u32),
            text: Some(Seq::empty().push('Q').push('R').push('E').push('G').push('B').push('p').push('c').push('C').push('A').push('A').push('C').push('A').push('g').push('g').push('=').push('=')),
            text_start: Some(1077411840u32),
            data: Some(Seq::empty().push('A').push('S').push('A').push('A').push('Q').push('F').push('q').push('l')),
            data_start: Some(1070202880u32),
        }),
{
    lemma_runp_esp32c2_100();
    reveal_strlit("{\"entry\":1077412868,\"text\":\"QREGBpcCAACAgg==\",\"text_start\":1077411840,\"data\":\"ASAAQFql\",\"data_start\":1070202880}");
    reveal_with_fuel(runp, 13);
}

proof fn lemma_parses_esp32c2()
    ensures
        spec_parse(catalog_text(Chip::Esp32c2)) == Some(stub_model(Chip::Esp32c2)),
{
    let s = catalog_text(Chip::Esp32c2);
    lemma_runp_esp32c2_112();
    reveal_strlit("{\"entry\":1077412868,\"text\":\"QREGBpcCAACAgg==\",\"text_start\":1077411840,\"data\":\"ASAAQFql\",\"data_start\":1070202880}");
    reveal_strlit("QREGBpcCAACAgg==");
    reveal_strlit("ASAAQFql");
    assert(s.len() == 112);
    let pm = spec_parse(s);
    let sm = stub_model(Chip::Esp32c2);
    assert(pm matches Some(m) && m.text =~= sm.text && m.data =~= sm.data && m =~~= sm);
    assert(pm == Some(sm));
}

proof fn lemma_runp_esp32c3_20()
    ensures
        runp(catalog_text(Chip::Esp32c3), 20) == (PState {
            mode: PMode::NextKey,
            key: Seq::empty().push('e').push('n').push('t').push('r').push('y'),
            pending: KeyId::Entry,
            num: 1077412872nat,
            cur: Seq::empty(),
            entry: Some(1077412872u32),
            text: None,
            text_start: None,
            data: None,
            data_start: None,
        }),
{
    reveal_strlit("{\"entry\":1077412872,\"text\":\"QREi4AAQlxIAAICCAQA=\",\"text_start\":1077411840,\"data\":\"AjAAQBEiMw==\",\"data_start\":1070071808}");
    reveal_with_fuel(runp, 21);
}

proof fn lemma_runp_esp32c3_40()
    ensures
        runp(catalog_text(Chip::Esp32c3), 40) == (PState {
            mode: PMode::InStr,
            key: Seq::empty().push('t').push('e').push('x').push('t'),
            pending: KeyId::Text,
            num: 1077412872nat,
            cur: Seq::empty().push('Q').push('R').push('E').push('i').push('4').push('A').push('A').push('Q').push('l').push('x').push('I').push('A'),
            entry: Some(1077412872u32),
            text: None,
            text_start: None,
            data: None,
            data_start: None,
        }),
{
    lemma_runp_esp32c3_20();
    reveal_strlit("{\"entry\":1077412872,\"text\":\"QREi4AAQlxIAAICCAQA=\",\"text_start\":1077411840,\"data\":\"AjAAQBEiMw==\",\"data_start\":1070071808}");
    reveal_with_fuel(runp, 21);
}

proof fn lemma_runp_esp32c3_60()
    ensures
        runp(catalog_text(Chip::Esp32c3), 60) == (PState {
            mode: PMode::InKey,
            key: Seq::empty().push('t').push('e').push('x').push('t').push('_').push('s').push('t').push('a').push('r'),
            pending: KeyId::Text,
            num: 1077412872nat,
            cur: Seq::empty().push('Q').push('R').push('E').push('i').push('4').push('A').push('A').push('Q').push('l').push('x').push('I').push('A').push('A').push('I').push('C').push('C').push('A').push('Q').push('A').push('='),
            entry: Some(1077412872u32),
            text: Some(Seq::empty().push('Q').push('R').push('E').push('i').push('4').push('A').push('A').push('Q').push('l').push('x').push('I').push('A').push('A').push('I').push('C').push('C').push('A').push('Q').push('A').push('=')),
            text_start: None,
            data: None,
            data_start: None,
        }),
{
    lemma_runp_esp32c3_40();
    reveal_strlit("{\"entry\":1077412872,\"text\":\"QREi4AAQlxIAAICCAQA=\",\"text_start\":1077411840,\"data\":\"AjAAQBEiMw==\",\"data_start\":1070071808}");
    reveal_with_fuel(runp, 21);
}

proof fn lemma_runp_esp32c3_80()
    ensures
        runp(catalog_text(Chip::Esp32c3), 80) == (PState {
            mode: PMode::AfterKey,
            key: Seq::empty().push('d').push('a').push('t').push('a'),
            pending: KeyId::TextStart,
            num: 1077411840nat,
            cur: Seq::empty().push('Q').push('R').push('E').push('i').push('4').push('A').push('A').push('Q').push('l').push('x').push('I').push('A').push('A').push('I').push('C').push('C').push('A').push('Q').push('A').push('='),
            entry: Some(1077412872u32),
            text: Some(Seq::empty().push('Q').push('R').push('E').push('i').push('4').push('A').push('A').push('Q').push('l').push('x').push('I').push('A').push('A').push('I').push('C').push('C').push('A').push('Q').push('A').push('=')),
            text_start: Some(1077411840u32),
            data: None,
            data_start: None,
        }),
{
    lemma_runp_esp32c3_60();
    reveal_strlit("{\"entry\":1077412872,\"text\":\"QREi4AAQlxIAAICCAQA=\",\"text_start\":1077411840,\"data\":\"AjAAQBEiMw==\",\"data_start\":1070071808}");
    reveal_with_fuel(runp, 21);
}

proof fn lemma_runp_esp32c3_100()
    ensures
        runp(catalog_text(Chip::Esp32c3), 100) == (PState {
            mode: PMode::InKey,
            key: Seq::empty().push('d').push('a').push('t'),
            pending: KeyId::Data,
            num: 1077411840nat,
            cur: Seq::empty().push('A').push('j').push('A').push('A').push('Q').push('B').push('E').push('i').push('M').push('w').push('=').push('='),
            entry: Some(1077412872u32),
            text: Some(Seq::empty().push('Q').push('R').push('E').push('i').push('4').push('A').push('A').push('Q').push('l').push('x').push('I').push('A').push('A').push('I').push('C').push('C').push('A').push('Q').push('A').push('=')),
            text_start: Some(1077411840u32),
            data: Some(Seq::empty().push('A').push('j').push('A').push('A').push('Q').push('B').push('E').push('i').push('M').push('w').push('=').push('=')),
            data_start: None,
        }),
{
    lemma_runp_esp32c3_80();
    reveal_strlit("{\"entry\":1077412872,\"text\":\"QREi4AAQlxIAAICCAQA=\",\"text_start\":1077411840,\"data\":\"AjAAQBEiMw==\",\"data_start\":1070071808}");
    reveal_with_fuel(runp, 21);
}

proof fn lemma_runp_esp32c3_120()
    ensures
        runp(catalog_text(Chip::Esp32c3), 120) == (PState {
            mode: PMode::End,
            key: Seq::empty().push('d').push('a').push('t').push('a').push('_').push('s').push('t').push('a').push('r').push('t'),
            pending: KeyId::DataStart,
            num: 1070071808nat,
            cur: Seq::empty().push('A').push('j').push('A').push('A').push('Q').push('B').push('E').push('i').push('M').push('w').push('=').push('='),
            entry: Some(1077412872u32),
            text: Some(Seq::empty().push('Q').push('R').push('E').push('i').push('4').push('A').push('A').push('Q').push('l').push('x').push('I').push('A').push('A').push('I').push('C').push('C').push('A').push('Q').push('A').push('=')),
            text_start: Some(1077411840u32),
            data: Some(Seq::empty().push('A').push('j').push('A').push('A').push('Q').push('B').push('E').push('i').push('M').push('w').push('=').push('=')),
            data_start: Some(1070071808u32),
        }),
{
    lemma_runp_esp32c3_100();
    reveal_strlit("{\"entry\":1077412872,\"text\":\"QREi4AAQlxIAAICCAQA=\",\"text_start\":1077411840,\"data\":\"AjAAQBEiMw==\",\"data_start\":1070071808}");
    reveal_with_fuel(runp, 21);
}

proof fn lemma_parses_esp32c3()
    ensures
        spec_parse(catalog_text(Chip::Esp32c3)) == Some(stub_model(Chip::Esp32c3)),
{
    let s = catalog_text(Chip::Esp32c3);
    lemma_runp_esp32c3_120();
    reveal_strlit("{\"entry\":1077412872,\"text\":\"QREi4AAQlxIAAICCAQA=\",\"text_start\":1077411840,\"data\":\"AjAAQBEiMw==\",\"data_start\":1070071808}");
    reveal_strlit("QREi4AAQlxIAAICCAQA=");
    reveal_strlit("AjAAQBEiMw==");
    assert(s.len() == 120);
    let pm = spec_parse(s);
    let sm = stub_model(Chip::Esp32c3);
    assert(pm matches Some(m) && m.text =~= sm.text && m.data =~= sm.data && m =~~= sm);
    assert(pm == Some(sm));
}

proof fn lemma_runp_esp32c6_20()
    ensures
        runp(catalog_text(Chip::Esp32c6), 20) == (PState {
            mode: PMode::NextKey,
            key: Seq::empty().push('e').push('n').push('t').push('r').push('y'),
            pending: KeyId::Entry,
            num: 1082131472nat,
            cur: Seq::empty(),
            entry: Some(1082131472u32),
            text: None,
            text_start: None,
            data: None,
            data_start: None,
        }),
{
    reveal_strlit("{\"entry\":1082131472,\"text\":\"EwEB/iM8gQBngAAA\",\"text_start\":1082130432,\"data\":\"A0AAQERVZnc=\",\"data_start\":1082458112}");
    reveal_with_fuel(runp, 21);
}

proof fn lemma_runp_esp32c6_40()
    ensures
        runp(catalog_text(Chip::Esp32c6), 40) == (PState {
            mode: PMode::InStr,
            key: Seq::empty().push('t').push('e').push('x').push('t'),
            pending: KeyId::Text,
            num: 1082131472nat,
            cur: Seq::empty().push('E').push('w').push('E').push('B').push('/').push('i').push('M').push('8').push('g').push('Q').push('B').push('n'),
            entry: Some(1082131472u32),
            text: None,
            text_start: None,
            data: None,
            data_start: None,
        }),
{
    lemma_runp_esp32c6_20();
    reveal_strlit("{\"entry\":1082131472,\"text\":\"EwEB/iM8gQBngAAA\",\"text_start\":1082130432,\"data\":\"A0AAQERVZnc=\",\"data_start\":1082458112}");
    reveal_with_fuel(runp, 21);
}

proof fn lemma_runp_esp32c6_60()
    ensures
        runp(catalog_text(Chip::Esp32c6), 60) == (PState {
            mode: PMode::InNum,
            key: Seq::empty().push('t').push('e').push('x').push('t').push('_').push('s').push('t').push('a').push('r').push('t'),
            pending: KeyId::TextStart,
            num: 1nat,
            cur: Seq::empty().push('E').push('w').push('E').push('B').push('/').push('i').push('M').push('8').push('g').push('Q').push('B').push('n').push('g').push('A').push('A').push('A'),
            entry: Some(1082131472u32),
            text: Some(Seq::empty().push('E').push('w').push('E').push('B').push('/').push('i').push('M').push('8').push('g').push('Q').push('B').push('n').push('g').push('A').push('A').push('A')),
            text_start: None,
            data: None,
            data_start: None,
        }),
{
    lemma_runp_esp32c6_40();
    reveal_strlit("{\"entry\":1082131472,\"text\":\"EwEB/iM8gQBngAAA\",\"text_start\":1082130432,\"data\":\"A0AAQERVZnc=\",\"data_start\":1082458112}");
    reveal_with_fuel(runp, 21);
}

proof fn lemma_runp_esp32c6_80()
    ensures
        runp(catalog_text(Chip::Esp32c6), 80) == (PState {
            mode: PMode::InStr,
            key: Seq::empty().push('d').push('a').push('t').push('a'),
            pending: KeyId::Data,
            num: 1082130432nat,
            cur: Seq::empty().push('A').push('0'),
            entry: Some(1082131472u32),
            text: Some(Seq::empty().push('E').push('w').push('E').push('B').push('/').push('i').push('M').push('8').push('g').push('Q').push('B').push('n').push('g').push('A').push('A').push('A')),
            text_start: Some(1082130432u32),
            data: None,
            data_start: None,
        }),
{
    lemma_runp_esp32c6_60();
    reveal_strlit("{\"entry\":1082131472,\"text\":\"EwEB/iM8gQBngAAA\",\"text_start\":1082130432,\"data\":\"A0AAQERVZnc=\",\"data_start\":1082458112}");
    reveal_with_fuel(runp, 21);
}

proof fn lemma_runp_esp32c6_100()
    ensures
        runp(catalog_text(Chip::Esp32c6), 100) == (PState {
            mode: PMode::InKey,
            key: Seq::empty().push('d').push('a').push('t').push('a').push('_').push('s').push('t'),
            pending: KeyId::Data,
            num: 1082130432nat,
            cur: Seq::empty().push('A').push('0').push('A').push('A').push('Q').push('E').push('R').push('V').push('Z').push('n').push('c').push('='),
            entry: Some(1082131472u32),
            text: Some(Seq::empty().push('E').push('w').push('E').push('B').push('/').push('i').push('M').push('8').push('g').push('Q').push('B').push('n').push('g').push('A').push('A').push('A')),
            text_start: Some(1082130432u32),
            data: Some(Seq::empty().push('A').push('0').push('A').push('A').push('Q').push('E').push('R').push('V').push('Z').push('n').push('c').push('=')),
            data_start: None,
        }),
{
    lemma_runp_esp32c6_80();
    reveal_strlit("{\"entry\":1082131472,\"text\":\"EwEB/iM8gQBngAAA\",\"text_start\":1082130432,\"data\":\"A0AAQERVZnc=\",\"data_start\":1082458112}");
    reveal_with_fuel(runp, 21);
}

proof fn lemma_runp_esp32c6_116()
    ensures
        runp(catalog_text(Chip::Esp32c6), 116) == (PState {
            mode: PMode::End,
            key: Seq::empty().push('d').push('a').push('t').push('a').push('_').push('s').push('t').push('a').push('r').push('t'),
            pending: KeyId::DataStart,
            num: 1082458112nat,
            cur: Seq::empty().push('A').push('0').push('A').push('A').push('Q').push('E').push('R').push('V').push('Z').push('n').push('c').push('='),
            entry: Some(1082131472u32),
            text: Some(Seq::empty().push('E').push('w').push('E').push('B').push('/').push('i').push('M').push('8').push('g').push('Q').push('B').push('n').push('g').push('A').push('A').push('A')),
            text_start: Some(1082130432u32),
            data: Some(Seq::empty().push('A').push('0').push('A').push('A').push('Q').push('E').push('R').push('V').push('Z').push('n').push('c').push('=')),
            data_start: Some(1082458112u32),
        }),
{
    lemma_runp_esp32c6_100();
    reveal_strlit("{\"entry\":1082131472,\"text\":\"EwEB/iM8gQBngAAA\",\"text_start\":1082130432,\"data\":\"A0AAQERVZnc=\",\"data_start\":1082458112}");
    reveal_with_fuel(runp, 17);
}

proof fn lemma_parses_esp32c6()
    ensures
        spec_parse(catalog_text(Chip::Esp32c6)) == Some(stub_model(Chip::Esp32c6)),
{
    let s = catalog_text(Chip::Esp32c6);
    lemma_runp_esp32c6_116();
    reveal_strlit("{\"entry\":1082131472,\"text\":\"EwEB/iM8gQBngAAA\",\"text_start\":1082130432,\"data\":\"A0AAQERVZnc=\",\"data_start\":1082458112}");
    reveal_strlit("EwEB/iM8gQBngAAA");
    reveal_strlit("A0AAQERVZnc=");
    assert(s.len() == 116);
    let pm = spec_parse(s);
    let sm = stub_model(Chip::Esp32c6);
    assert(pm matches Some(m) && m.text =~= sm.text && m.data =~= sm.data && m =~~= sm);
    assert(pm == Some(sm));
}

proof fn lemma_runp_esp32h2_20()
    ensures
        runp(catalog_text(Chip::Esp32h2), 20) == (PState {
            mode: PMode::NextKey,
            key: Seq::empty().push('e').push('n').push('t').push('r').push('y'),
            pending: KeyId::Entry,
            num: 1082131476nat,
            cur: Seq::empty(),
            entry: Some(1082131476u32),
            text: None,
            text_start: None,
            data: None,
            data_start: None,
        }),
{
    reveal_strlit("{\"entry\":1082131476,\"text\":\"EwEB/SM8EQJngAAAEwA=\",\"text_start\":1082130432,\"data\":\"BFAAQIiZ\",\"data_start\":1082785792}");
    reveal_with_fuel(runp, 21);
}

proof fn lemma_runp_esp32h2_40()
    ensures
        runp(catalog_text(Chip::Esp32h2), 40) == (PState {
            mode: PMode::InStr,
            key: Seq::empty().push('t').push('e').push('x').push('t'),
            pending: KeyId::Text,
            num: 1082131476nat,
            cur: Seq::empty().push('E').push('w').push('E').push('B').push('/').push('S').push('M').push('8').push('E').push('Q').push('J').push('n'),
            entry: Some(1082131476u32),
            text: None,
            text_start: None,
            data: None,
            data_start: None,
        }),
{
    lemma_runp_esp32h2_20();
    reveal_strlit("{\"entry\":1082131476,\"text\":\"EwEB/SM8EQJngAAAEwA=\",\"text_start\":1082130432,\"data\":\"BFAAQIiZ\",\"data_start\":1082785792}");
    reveal_with_fuel(runp, 21);
}

proof fn lemma_runp_esp32h2_60()
    ensures
        runp(catalog_text(Chip::Esp32h2), 60) == (PState {
            mode: PMode::InKey,
            key: Seq::empty().push('t').push('e').push('x').push('t').push('_').push('s').push('t').push('a').push('r'),
            pending: KeyId::Text,
            num: 1082131476nat,
            cur: Seq::empty().push('E').push('w').push('E').push('B').push('/').push('S').push('M').push('8').push('E').push('Q').push('J').push('n').push('g').push('A').push('A').push('A').push('E').push('w').push('A').push('='),
            entry: Some(1082131476u32),
            text: Some(Seq::empty().push('E').push('w').push('E').push('B').push('/').push('S').push('M').push('8').push('E').push('Q').push('J').push('n').push('g').push('A').push('A').push('A').push('E').push('w').push('A').push('=')),
            text_start: None,
            data: None,
            data_start: None,
        }),
{
    lemma_runp_esp32h2_40();
    reveal_strlit("{\"entry\":1082131476,\"text\":\"EwEB/SM8EQJngAAAEwA=\",\"text_start\":1082130432,\"data\":\"BFAAQIiZ\",\"data_start\":1082785792}");
    reveal_with_fuel(runp, 21);
}

proof fn lemma_runp_esp32h2_80()
    ensures
        runp(catalog_text(Chip::Esp32h2), 80) == (PState {
            mode: PMode::AfterKey,
            key: Seq::empty().push('d').push('a').push('t').push('a'),
            pending: KeyId::TextStart,
            num: 1082130432nat,
            cur: Seq::empty().push('E').push('w').push('E').push('B').push('/').push('S').push('M').push('8').push('E').push('Q').push('J').push('n').push('g').push('A').push('A').push('A').push('E').push('w').push('A').push('='),
            entry: Some(1082131476u32),
            text: Some(Seq::empty().push('E').push('w').push('E').push('B').push('/').push('S').push('M').push('8').push('E').push('Q').push('J').push('n').push('g').push('A').push('A').push('A').push('E').push('w').push('A').push('=')),
            text_start: Some(1082130432u32),
            data: None,
            data_start: None,
        }),
{
    lemma_runp_esp32h2_60();
    reveal_strlit("{\"entry\":1082131476,\"text\":\"EwEB/SM8EQJngAAAEwA=\",\"text_start\":1082130432,\"data\":\"BFAAQIiZ\",\"data_start\":1082785792}");
    reveal_with_fuel(runp, 21);
}

proof fn lemma_runp_esp32h2_100()
    ensures
        runp(catalog_text(Chip::Esp32h2), 100) == (PState {
            mode: PMode::InKey,
            key: Seq::empty().push('d').push('a').push('t').push('a').push('_').push('s').push('t'),
            pending: KeyId::Data,
            num: 1082130432nat,
            cur: Seq::empty().push('B').push('F').push('A').push('A').push('Q').push('I').push('i').push('Z'),
            entry: Some(1082131476u32),
            text: Some(Seq::empty().push('E').push('w').push('E').push('B').push('/').push('S').push('M').push('8').push('E').push('Q').push('J').push('n').push('g').push('A').push('A').push('A').push('E').push('w').push('A').push('=')),
            text_start: Some(1082130432u32),
            data: Some(Seq::empty().push('B').push('F').push('A').push('A').push('Q').push('I').push('i').push('Z')),
            data_start: None,
        }),
{
    lemma_runp_esp32h2_80();
    reveal_strlit("{\"entry\":1082131476,\"text\":\"EwEB/SM8EQJngAAAEwA=\",\"text_start\":1082130432,\"data\":\"BFAAQIiZ\",\"data_start\":1082785792}");
    reveal_with_fuel(runp, 21);
}

proof fn lemma_runp_esp32h2_116()
    ensures
        runp(catalog_text(Chip::Esp32h2), 116) == (PState {
            mode: PMode::End,
            key: Seq::empty().push('d').push('a').push('t').push('a').push('_').push('s').push('t').push('a').push('r').push('t'),
            pending: KeyId::DataStart,
            num: 1082785792nat,
            cur: Seq::empty().push('B').push('F').push('A').push('A').push('Q').push('I').push('i').push('Z'),
            entry: Some(1082131476u32),
            text: Some(Seq::empty().push('E').push('w').push('E').push('B').push('/').push('S').push('M').push('8').push('E').push('Q').push('J').push('n').push('g').push('A').push('A').push('A').push('E').push('w').push('A').push('=')),
            text_start: Some(1082130432u32),
            data: Some(Seq::empty().push('B').push('F').push('A').push('A').push('Q').push('I').push('i').push('Z')),
            data_start: Some(1082785792u32),
        }),
{
    lemma_runp_esp32h2_100();
    reveal_strlit("{\"entry\":1082131476,\"text\":\"EwEB/SM8EQJngAAAEwA=\",\"text_start\":1082130432,\"data\":\"BFAAQIiZ\",\"data_start\":1082785792}");
    reveal_with_fuel(runp, 17);
}

proof fn lemma_parses_esp32h2()
    ensures
        spec_parse(catalog_text(Chip::Esp32h2)) == Some(stub_model(Chip::Esp32h2)),
{
    let s = catalog_text(Chip::Esp32h2);
    lemma_runp_esp32h2_116();
    reveal_strlit("{\"entry\":1082131476,\"text\":\"EwEB/SM8EQJngAAAEwA=\",\"text_start\":1082130432,\"data\":\"BFAAQIiZ\",\"data_start\":1082785792}");
    reveal_strlit("EwEB/SM8EQJngAAAEwA=");
    reveal_strlit("BFAAQIiZ");
    assert(s.len() == 116);
    let pm = spec_parse(s);
    let sm = stub_model(Chip::Esp32h2);
    assert(pm matches Some(m) && m.text =~= sm.text && m.data =~= sm.data && m =~~= sm);
    assert(pm == Some(sm));
}

proof fn lemma_runp_esp32p4_20()
    ensures
        runp(catalog_text(Chip::Esp32p4), 20) == (PState {
            mode: PMode::NextKey,
            key: Seq::empty().push('e').push('n').push('t').push('r').push('y'),
            pending: KeyId::Entry,
            num: 1341129760nat,
            cur: Seq::empty(),
            entry: Some(1341129760u32),
            text: None,
            text_start: None,
            data: None,
            data_start: None,
        }),
{
    reveal_strlit("{\"entry\":1341129760,\"text\":\"FwUAABMFRQBngAAA\",\"text_start\":1341128704,\"data\":\"BWAAQKq7zA==\",\"data_start\":1341390848}");
    reveal_with_fuel(runp, 21);
}

proof fn lemma_runp_esp32p4_40()
    ensures
        runp(catalog_text(Chip::Esp32p4), 40) == (PState {
            mode: PMode::InStr,
            key: Seq::empty().push('t').push('e').push('x').push('t'),
            pending: KeyId::Text,
            num: 1341129760nat,
            cur: Seq::empty().push('F').push('w').push('U').push('A').push('A').push('B').push('M').push('F').push('R').push('Q').push('B').push('n'),
            entry: Some(1341129760u32),
            text: None,
            text_start: None,
            data: None,
            data_start: None,
        }),
{
    lemma_runp_esp32p4_20();
    reveal_strlit("{\"entry\":1341129760,\"text\":\"FwUAABMFRQBngAAA\",\"text_start\":1341128704,\"data\":\"BWAAQKq7zA==\",\"data_start\":1341390848}");
    reveal_with_fuel(runp, 21);
}

proof fn lemma_runp_esp32p4_60()
    ensures
        runp(catalog_text(Chip::Esp32p4), 60) == (PState {
            mode: PMode::InNum,
            key: Seq::empty().push('t').push('e').push('x').push('t').push('_').push('s').push('t').push('a').push('r').push('t'),
            pending: KeyId::TextStart,
            num: 1nat,
            cur: Seq::empty().push('F').push('w').push('U').push('A').push('A').push('B').push('M').push('F').push('R').push('Q').push('B').push('n').push('g').push('A').push('A').push('A'),
            entry: Some(1341129760u32),
            text: Some(Seq::empty().push('F').push('w').push('U').push('A').push('A').push('B').push('M').push('F').push('R').push('Q').push('B').push('n').push('g').push('A').push('A').push('A')),
            text_start: None,
            data: None,
            data_start: None,
        }),
{
    lemma_runp_esp32p4_40();
    reveal_strlit("{\"entry\":1341129760,\"text\":\"FwUAABMFRQBngAAA\",\"text_start\":1341128704,\"data\":\"BWAAQKq7zA==\",\"data_start\":1341390848}");
    reveal_with_fuel(runp, 21);
}

proof fn lemma_runp_esp32p4_80()
    ensures
        runp(catalog_text(Chip::Esp32p4), 80) == (PState {
            mode: PMode::InStr,
            key: Seq::empty().push('d').push('a').push('t').push('a'),
            pending: KeyId::Data,
            num: 1341128704nat,
            cur: Seq::empty().push('B').push('W'),
            entry: Some(1341129760u32),
            text: Some(Seq::empty().push('F').push('w').push('U').push('A').push('A').push('B').push('M').push('F').push('R').push('Q').push('B').push('n').push('g').push('A').push('A').push('A')),
            text_start: Some(1341128704u32),
            data: None,
            data_start: None,
        }),
{
    lemma_runp_esp32p4_60();
    reveal_strlit("{\"entry\":1341129760,\"text\":\"FwUAABMFRQBngAAA\",\"text_start\":1341128704,\"data\":\"BWAAQKq7zA==\",\"data_start\":1341390848}");
    reveal_with_fuel(runp, 21);
}

proof fn lemma_runp_esp32p4_100()
    ensures
        runp(catalog_text(Chip::Esp32p4), 100) == (PState {
            mode: PMode::InKey,
            key: Seq::empty().push('d').push('a').push('t').push('a').push('_').push('s').push('t'),
            pending: KeyId::Data,
            num: 1341128704nat,
            cur: Seq::empty().push('B').push('W').push('A').push('A').push('Q').push('K').push('q').push('7').push('z').push('A').push('=').push('='),
            entry: Some(1341129760u32),
            text: Some(Seq::empty().push('F').push('w').push('U').push('A').push('A').push('B').push('M').push('F').push('R').push('Q').push('B').push('n').push('g').push('A').push('A').push('A')),
            text_start: Some(1341128704u32),
            data: Some(Seq::empty().push('B').push('W').push('A').push('A').push('Q').push('K').push('q').push('7').push('z').push('A').push('=').push('=')),
            data_start: None,
        }),
{
    lemma_runp_esp32p4_80();
    reveal_strlit("{\"entry\":1341129760,\"text\":\"FwUAABMFRQBngAAA\",\"text_start\":1341128704,\"data\":\"BWAAQKq7zA==\",\"data_start\":1341390848}");
    reveal_with_fuel(runp, 21);
}

proof fn lemma_runp_esp32p4_116()
    ensures
        runp(catalog_text(Chip::Esp32p4), 116) == (PState {
            mode: PMode::End,
            key: Seq::empty().push('d').push('a').push('t').push('a').push('_').push('s').push('t').push('a').push('r').push('t'),
            pending: KeyId::DataStart,
            num: 1341390848nat,
            cur: Seq::empty().push('B').push('W').push('A').push('A').push('Q').push('K').push('q').push('7').push('z').push('A').push('=').push('='),
            entry: Some(1341129760u32),
            text: Some(Seq::empty().push('F').push('w').push('U').push('A').push('A').push('B').push('M').push('F').push('R').push('Q').push('B').push('n').push('g').push('A').push('A').push('A')),
            text_start: Some(1341128704u32),
            data: Some(Seq::empty().push('B').push('W').push('A').push('A').push('Q').push('K').push('q').push('7').push('z').push('A').push('=').push('=')),
            data_start: Some(1341390848u32),
        }),
{
    lemma_runp_esp32p4_100();
    reveal_strlit("{\"entry\":1341129760,\"text\":\"FwUAABMFRQBngAAA\",\"text_start\":1341128704,\"data\":\"BWAAQKq7zA==\",\"data_start\":1341390848}");
    reveal_with_fuel(runp, 17);
}

proof fn lemma_parses_esp32p4()
    ensures
        spec_parse(catalog_text(Chip::Esp32p4)) == Some(stub_model(Chip::Esp32p4)),
{
    let s = catalog_text(Chip::Esp32p4);
    lemma_runp_esp32p4_116();
    reveal_strlit("{\"entry\":1341129760,\"text\":\"FwUAABMFRQBngAAA\",\"text_start\":1341128704,\"data\":\"BWAAQKq7zA==\",\"data_start\":1341390848}");
    reveal_strlit("FwUAABMFRQBngAAA");
    reveal_strlit("BWAAQKq7zA==");
    assert(s.len() == 116);
    let pm = spec_parse(s);
    let sm = stub_model(Chip::Esp32p4);
    assert(pm matches Some(m) && m.text =~= sm.text && m.data =~= sm.data && m =~~= sm);
    assert(pm == Some(sm));
}

proof fn lemma_runp_esp32s2_20()
    ensures
        runp(catalog_text(Chip::Esp32s2), 20) == (PState {
            mode: PMode::NextKey,
            key: Seq::empty().push('e').push('n').push('t').push('r').push('y'),
            pending: KeyId::Entry,
            num: 1073906688nat,
            cur: Seq::empty(),
            entry: Some(1073906688u32),
            text: None,
            text_start: None,
            data: None,
            data_start: None,
        }),
{
    reveal_strlit("{\"entry\":1073906688,\"text\":\"NmEAofz/4AoAHfA=\",\"text_start\":1073905664,\"data\":\"BnAAQN3u\",\"data_start\":1073414144}");
    reveal_with_fuel(runp, 21);
}

proof fn lemma_runp_esp32s2_40()
    ensures
        runp(catalog_text(Chip::Esp32s2), 40) == (PState {
            mode: PMode::InStr,
            key: Seq::empty().push('t').push('e').push('x').push('t'),
            pending: KeyId::Text,
            num: 1073906688nat,
            cur: Seq::empty().push('N').push('m').push('E').push('A').push('o').push('f').push('z').push('/').push('4').push('A').push('o').push('A'),
            entry: Some(1073906688u32),
            text: None,
            text_start: None,
            data: None,
            data_start: None,
        }),
{
    lemma_runp_esp32s2_20();
    reveal_strlit("{\"entry\":1073906688,\"text\":\"NmEAofz/4AoAHfA=\",\"text_start\":1073905664,\"data\":\"BnAAQN3u\",\"data_start\":1073414144}");
    reveal_with_fuel(runp, 21);
}

proof fn lemma_runp_esp32s2_60()
    ensures
        runp(catalog_text(Chip::Esp32s2), 60) == (PState {
            mode: PMode::InNum,
            key: Seq::empty().push('t').push('e').push('x').push('t').push('_').push('s').push('t').push('a').push('r').push('t'),
            pending: KeyId::TextStart,
            num: 1nat,
            cur: Seq::empty().push('N').push('m').push('E').push('A').push('o').push('f').push('z').push('/').push('4').push('A').push('o').push('A').push('H').push('f').push('A').push('='),
            entry: Some(1073906688u32),
            text: Some(Seq::empty().push('N').push('m').push('E').push('A').push('o').push('f').push('z').push('/').push('4').push('A').push('o').push('A').push('H').push('f').push('A').push('=')),
            text_start: None,
            data: None,
            data_start: None,
        }),
{
    lemma_runp_esp32s2_40();
    reveal_strlit("{\"entry\":1073906688,\"text\":\"NmEAofz/4AoAHfA=\",\"text_start\":1073905664,\"data\":\"BnAAQN3u\",\"data_start\":1073414144}");
    reveal_with_fuel(runp, 21);
}

proof fn lemma_runp_esp32s2_80()
    ensures
        runp(catalog_text(Chip::Esp32s2), 80) == (PState {
            mode: PMode::InStr,
            key: Seq::empty().push('d').push('a').push('t').push('a'),
            pending: KeyId::Data,
            num: 1073905664nat,
            cur: Seq::empty().push('B').push('n'),
            entry: Some(1073906688u32),
            text: Some(Seq::empty().push('N').push('m').push('E').push('A').push('o').push('f').push('z').push('/').push('4').push('A').push('o').push('A').push('H').push('f').push('A').push('=')),
            text_start: Some(1073905664u32),
            data: None,
            data_start: None,
        }),
{
    lemma_runp_esp32s2_60();
    reveal_strlit("{\"entry\":1073906688,\"text\":\"NmEAofz/4AoAHfA=\",\"text_start\":1073905664,\"data\":\"BnAAQN3u\",\"data_start\":1073414144}");
    reveal_with_fuel(runp, 21);
}

proof fn lemma_runp_esp32s2_100()
    ensures
        runp(catalog_text(Chip::Esp32s2), 100) == (PState {
            mode: PMode::AfterKey,
            key: Seq::empty().push('d').push('a').push('t').push('a').push('_').push('s').push('t').push('a').push('r').push('t'),
            pending: KeyId::Data,
            num: 1073905664nat,
            cur: Seq::empty().push('B').push('n').push('A').push('A').push('Q').push('N').push('3').push('u'),
            entry: Some(1073906688u32),
            text: Some(Seq::empty().push('N').push('m').push('E').push('A').push('o').push('f').push('z').push('/').push('4').push('A').push('o').push('A').push('H').push('f').push('A').push('=')),
            text_start: Some(1073905664u32),
            data: Some(Seq::empty().push('B').push('n').push('A').push('A').push('Q').push('N').push('3').push('u')),
            data_start: None,
        }),
{
    lemma_runp_esp32s2_80();
    reveal_strlit("{\"entry\":1073906688,\"text\":\"NmEAofz/4AoAHfA=\",\"text_start\":1073905664,\"data\":\"BnAAQN3u\",\"data_start\":1073414144}");
    reveal_with_fuel(runp, 21);
}

proof fn lemma_runp_esp32s2_112()
    ensures
        runp(catalog_text(Chip::Esp32s2), 112) == (PState {
            mode: PMode::End,
            key: Seq::empty().push('d').push('a').push('t').push('a').push('_').push('s').push('t').push('a').push('r').push('t'),
            pending: KeyId::DataStart,
            num: 1073414144nat,
            cur: Seq::empty().push('B').push('n').push('A').push('A').push('Q').push('N').push('3').push('u'),
            entry: Some(1073906688u32),
            text: Some(Seq::empty().push('N').push('m').push('E').push('A').push('o').push('f').push('z').push('/').push('4').push('A').push('o').push('A').push('H').push('f').push('A').push('=')),
            text_start: Some(1073905664u32),
            data: Some(Seq::empty().push('B').push('n').push('A').push('A').push('Q').push('N').push('3').push('u')),
            data_start: Some(1073414144u32),
        }),
{
    lemma_runp_esp32s2_100();
    reveal_strlit("{\"entry\":1073906688,\"text\":\"NmEAofz/4AoAHfA=\",\"text_start\":1073905664,\"data\":\"BnAAQN3u\",\"data_start\":1073414144}");
    reveal_with_fuel(runp, 13);
}

proof fn lemma_parses_esp32s2()
    ensures
        spec_parse(catalog_text(Chip::Esp32s2)) == Some(stub_model(Chip::Esp32s2)),
{
    let s = catalog_text(Chip::Esp32s2);
    lemma_runp_esp32s2_112();
    reveal_strlit("{\"entry\":1073906688,\"text\":\"NmEAofz/4AoAHfA=\",\"text_start\":1073905664,\"data\":\"BnAAQN3u\",\"data_start\":1073414144}");
    reveal_strlit("NmEAofz/4AoAHfA=");
    reveal_strlit("BnAAQN3u");
    assert(s.len() == 112);
    let pm = spec_parse(s);
    let sm = stub_model(Chip::Esp32s2);
    assert(pm matches Some(m) && m.text =~= sm.text && m.data =~= sm.data && m =~~= sm);
    assert(pm == Some(sm));
}

proof fn lemma_runp_esp32s3_20()
    ensures
        runp(catalog_text(Chip::Esp32s3), 20) == (PState {
            mode: PMode::NextKey,
            key: Seq::empty().push('e').push('n').push('t').push('r').push('y'),
            pending: KeyId::Entry,
            num: 1077380104nat,
            cur: Seq::empty(),
            entry: Some(1077380104u32),
            text: None,
            text_start: None,
            data: None,
            data_start: None,
        }),
{
    reveal_strlit("{\"entry\":1077380104,\"text\":\"NkEAkfr/4AkAkB3w\",\"text_start\":1077379072,\"data\":\"B4AAQP8AEjQ=\",\"data_start\":1070104576}");
    reveal_with_fuel(runp, 21);
}

proof fn lemma_runp_esp32s3_40()
    ensures
        runp(catalog_text(Chip::Esp32s3), 40) == (PState {
            mode: PMode::InStr,
            key: Seq::empty().push('t').push('e').push('x').push('t'),
            pending: KeyId::Text,
            num: 1077380104nat,
            cur: Seq::empty().push('N').push('k').push('E').push('A').push('k').push('f').push('r').push('/').push('4').push('A').push('k').push('A'),
            entry: Some(1077380104u32),
            text: None,
            text_start: None,
            data: None,
            data_start: None,
        }),
{
    lemma_runp_esp32s3_20();
    reveal_strlit("{\"entry\":1077380104,\"text\":\"NkEAkfr/4AkAkB3w\",\"text_start\":1077379072,\"data\":\"B4AAQP8AEjQ=\",\"data_start\":1070104576}");
    reveal_with_fuel(runp, 21);
}

proof fn lemma_runp_esp32s3_60()
    ensures
        runp(catalog_text(Chip::Esp32s3), 60) == (PState {
            mode: PMode::InNum,
            key: Seq::empty().push('t').push('e').push('x').push('t').push('_').push('s').push('t').push('a').push('r').push('t'),
            pending: KeyId::TextStart,
            num: 1nat,
            cur: Seq::empty().push('N').push('k').push('E').push('A').push('k').push('f').push('r').push('/').push('4').push('A').push('k').push('A').push('k').push('B').push('3').push('w'),
            entry: Some(1077380104u32),
            text: Some(Seq::empty().push('N').push('k').push('E').push('A').push('k').push('f').push('r').push('/').push('4').push('A').push('k').push('A').push('k').push('B').push('3').push('w')),
            text_start: None,
            data: None,
            data_start: None,
        }),
{
    lemma_runp_esp32s3_40();
    reveal_strlit("{\"entry\":1077380104,\"text\":\"NkEAkfr/4AkAkB3w\",\"text_start\":1077379072,\"data\":\"B4AAQP8AEjQ=\",\"data_start\":1070104576}");
    reveal_with_fuel(runp, 21);
}

proof fn lemma_runp_esp32s3_80()
    ensures
        runp(catalog_text(Chip::Esp32s3), 80) == (PState {
            mode: PMode::InStr,
            key: Seq::empty().push('d').push('a').push('t').push('a'),
            pending: KeyId::Data,
            num: 1077379072nat,
            cur: Seq::empty().push('B').push('4'),
            entry: Some(1077380104u32),
            text: Some(Seq::empty().push('N').push('k').push('E').push('A').push('k').push('f').push('r').push('/').push('4').push('A').push('k').push('A').push('k').push('B').push('3').push('w')),
            text_start: Some(1077379072u32),
            data: None,
            data_start: None,
        }),
{
    lemma_runp_esp32s3_60();
    reveal_strlit("{\"entry\":1077380104,\"text\":\"NkEAkfr/4AkAkB3w\",\"text_start\":1077379072,\"data\":\"B4AAQP8AEjQ=\",\"data_start\":1070104576}");
    reveal_with_fuel(runp, 21);
}

proof fn lemma_runp_esp32s3_100()
    ensures
        runp(catalog_text(Chip::Esp32s3), 100) == (PState {
            mode: PMode::InKey,
            key: Seq::empty().push('d').push('a').push('t').push('a').push('_').push('s').push('t'),
            pending: KeyId::Data,
            num: 1077379072nat,
            cur: Seq::empty().push('B').push('4').push('A').push('A').push('Q').push('P').push('8').push('A').push('E').push('j').push('Q').push('='),
            entry: Some(1077380104u32),
            text: Some(Seq::empty().push('N').push('k').push('E').push('A').push('k').push('f').push('r').push('/').push('4').push('A').push('k').push('A').push('k').push('B').push('3').push('w')),
            text_start: Some(1077379072u32),
            data: Some(Seq::empty().push('B').push('4').push('A').push('A').push('Q').push('P').push('8').push('A').push('E').push('j').push('Q').push('=')),
            data_start: None,
        }),
{
    lemma_runp_esp32s3_80();
    reveal_strlit("{\"entry\":1077380104,\"text\":\"NkEAkfr/4AkAkB3w\",\"text_start\":1077379072,\"data\":\"B4AAQP8AEjQ=\",\"data_start\":1070104576}");
    reveal_with_fuel(runp, 21);
}

proof fn lemma_runp_esp32s3_116()
    ensures
        runp(catalog_text(Chip::Esp32s3), 116) == (PState {
            mode: PMode::End,
            key: Seq::empty().push('d').push('a').push('t').push('a').push('_').push('s').push('t').push('a').push('r').push('t'),
            pending: KeyId::DataStart,
            num: 1070104576nat,
            cur: Seq::empty().push('B').push('4').push('A').push('A').push('Q').push('P').push('8').push('A').push('E').push('j').push('Q').push('='),
            entry: Some(1077380104u32),
            text: Some(Seq::empty().push('N').push('k').push('E').push('A').push('k').push('f').push('r').push('/').push('4').push('A').push('k').push('A').push('k').push('B').push('3').push('w')),
            text_start: Some(1077379072u32),
            data: Some(Seq::empty().push('B').push('4').push('A').push('A').push('Q').push('P').push('8').push('A').push('E').push('j').push('Q').push('=')),
            data_start: Some(1070104576u32),
        }),
{
    lemma_runp_esp32s3_100();
    reveal_strlit("{\"entry\":1077380104,\"text\":\"NkEAkfr/4AkAkB3w\",\"text_start\":1077379072,\"data\":\"B4AAQP8AEjQ=\",\"data_start\":1070104576}");
    reveal_with_fuel(runp, 17);
}

proof fn lemma_parses_esp32s3()
    ensures
        spec_parse(catalog_text(Chip::Esp32s3)) == Some(stub_model(Chip::Esp32s3)),
{
    let s = catalog_text(Chip::Esp32s3);
    lemma_runp_esp32s3_116();
    reveal_strlit("{\"entry\":1077380104,\"text\":\"NkEAkfr/4AkAkB3w\",\"text_start\":1077379072,\"data\":\"B4AAQP8AEjQ=\",\"data_start\":1070104576}");
    reveal_strlit("NkEAkfr/4AkAkB3w");
    reveal_strlit("B4AAQP8AEjQ=");
    assert(s.len() == 116);
    let pm = spec_parse(s);
    let sm = stub_model(Chip::Esp32s3);
    assert(pm matches Some(m) && m.text =~= sm.text && m.data =~= sm.data && m =~~= sm);
    assert(pm == Some(sm));
}

/// Totality of the catalog: every variant's embedded resource parses, and to
/// the descriptor `stub_model` names.
pub proof fn lemma_catalog_parses(chip: Chip)
    ensures
        spec_parse(catalog_text(chip)) == Some(stub_model(chip)),
{
    match chip {
        Chip::Esp32 => lemma_parses_esp32(),
        Chip::Esp32c2 => lemma_parses_esp32c2(),
        Chip::Esp32c3 => lemma_parses_esp32c3(),
        Chip::Esp32c6 => lemma_parses_esp32c6(),
        Chip::Esp32h2 => lemma_parses_esp32h2(),
        Chip::Esp32p4 => lemma_parses_esp32p4(),
        Chip::Esp32s2 => lemma_parses_esp32s2(),
        Chip::Esp32s3 => lemma_parses_esp32s3(),
    }
}

proof fn lemma_layout_esp32()
    ensures
        b64_ok(stub_model(Chip::Esp32).text),
        b64_ok(stub_model(Chip::Esp32).data),
        b64_decode(stub_model(Chip::Esp32).text).len() == 12,
        b64_decode(stub_model(Chip::Esp32).data).len() == 8,
{
    reveal_strlit("NkEAgfj/4AgAHfAA");
    reveal_strlit("ABAAQKVaWqU=");
    reveal_with_fuel(b64_ok, 5);
    reveal_with_fuel(b64_decode, 5);
}

proof fn lemma_layout_esp32c2()
    ensures
        b64_ok(stub_model(Chip::Esp32c2).text),
        b64_ok(stub_model(Chip::Esp32c2).data),
        b64_decode(stub_model(Chip::Esp32c2).text).len() == 10,
        b64_decode(stub_model(Chip::Esp32c2).data).len() == 6,
{
    reveal_strlit("QREGBpcCAACAgg==");
    reveal_strlit("ASAAQFql");
    reveal_with_fuel(b64_ok, 5);
    reveal_with_fuel(b64_decode, 5);
}

proof fn lemma_layout_esp32c3()
    ensures
        b64_ok(stub_model(Chip::Esp32c3).text),
        b64_ok(stub_model(Chip::Esp32c3).data),
        b64_decode(stub_model(Chip::Esp32c3).text).len() == 14,
        b64_decode(stub_model(Chip::Esp32c3).data).len() == 7,
{
    reveal_strlit("QREi4AAQlxIAAICCAQA=");
    reveal_strlit("AjAAQBEiMw==");
    reveal_with_fuel(b64_ok, 6);
    reveal_with_fuel(b64_decode, 6);
}

proof fn lemma_layout_esp32c6()
    ensures
        b64_ok(stub_model(Chip::Esp32c6).text),
        b64_ok(stub_model(Chip::Esp32c6).data),
        b64_decode(stub_model(Chip::Esp32c6).text).len() == 12,
        b64_decode(stub_model(Chip::Esp32c6).data).len() == 8,
{
    reveal_strlit("EwEB/iM8gQBngAAA");
    reveal_strlit("A0AAQERVZnc=");
    reveal_with_fuel(b64_ok, 5);
    reveal_with_fuel(b64_decode, 5);
}

proof fn lemma_layout_esp32h2()
    ensures
        b64_ok(stub_model(Chip::Esp32h2).text),
        b64_ok(stub_model(Chip::Esp32h2).data),
        b64_decode(stub_model(Chip::Esp32h2).text).len() == 14,
        b64_decode(stub_model(Chip::Esp32h2).data).len() == 6,
{
    reveal_strlit("EwEB/SM8EQJngAAAEwA=");
    reveal_strlit("BFAAQIiZ");
    reveal_with_fuel(b64_ok, 6);
    reveal_with_fuel(b64_decode, 6);
}

proof fn lemma_layout_esp32p4()
    ensures
        b64_ok(stub_model(Chip::Esp32p4).text),
        b64_ok(stub_model(Chip::Esp32p4).data),
        b64_decode(stub_model(Chip::Esp32p4).text).len() == 12,
        b64_decode(stub_model(Chip::Esp32p4).data).len() == 7,
{
    reveal_strlit("FwUAABMFRQBngAAA");
    reveal_strlit("BWAAQKq7zA==");
    reveal_with_fuel(b64_ok, 5);
    reveal_with_fuel(b64_decode, 5);
}

proof fn lemma_layout_esp32s2()
    ensures
        b64_ok(stub_model(Chip::Esp32s2).text),
        b64_ok(stub_model(Chip::Esp32s2).data),
        b64_decode(stub_model(Chip::Esp32s2).text).len() == 11,
        b64_decode(stub_model(Chip::Esp32s2).data).len() == 6,
{
    reveal_strlit("NmEAofz/4AoAHfA=");
    reveal_strlit("BnAAQN3u");
    reveal_with_fuel(b64_ok, 5);
    reveal_with_fuel(b64_decode, 5);
}

proof fn lemma_layout_esp32s3()
    ensures
        b64_ok(stub_model(Chip::Esp32s3).text),
        b64_ok(stub_model(Chip::Esp32s3).data),
        b64_decode(stub_model(Chip::Esp32s3).text).len() == 12,
        b64_decode(stub_model(Chip::Esp32s3).data).len() == 8,
{
    reveal_strlit("NkEAkfr/4AkAkB3w");
    reveal_strlit("B4AAQP8AEjQ=");
    reveal_with_fuel(b64_ok, 5);
    reveal_with_fuel(b64_decode, 5);
}

/// Both payloads of every shipped resource decode, and the address ranges
/// the two segments load at do not intersect.
pub proof fn lemma_catalog_segments_disjoint(chip: Chip)
    ensures
        b64_ok(stub_model(chip).text),
        b64_ok(stub_model(chip).data),
        stub_model(chip).text_start + b64_decode(stub_model(chip).text).len()
            <= stub_model(chip).data_start || stub_model(chip).data_start + b64_decode(
            stub_model(chip).data,
        ).len() <= stub_model(chip).text_start,
{
    match chip {
        Chip::Esp32 => lemma_layout_esp32(),
        Chip::Esp32c2 => lemma_layout_esp32c2(),
        Chip::Esp32c3 => lemma_layout_esp32c3(),
        Chip::Esp32c6 => lemma_layout_esp32c6(),
        Chip::Esp32h2 => lemma_layout_esp32h2(),
        Chip::Esp32p4 => lemma_layout_esp32p4(),
        Chip::Esp32s2 => lemma_layout_esp32s2(),
        Chip::Esp32s3 => lemma_layout_esp32s3(),
    }
}

impl FlashStub {
    /// Fetch the flash stub for the provided chip.  The catalog is exhaustive
    /// and every embedded record is proven to parse, so the lookup cannot
    /// fail.
    pub fn get(chip: Chip) -> (r: FlashStub)
        ensures
            r@ == stub_model(chip),
            Some(r@) == spec_parse(catalog_text(chip)),
    {
        let s: &str = match chip {
            Chip::Esp32 => "{\"entry\":1074332672,\"text\":\"NkEAgfj/4AgAHfAA\",\"text_start\":1074331648,\"data\":\"ABAAQKVaWqU=\",\"data_start\":1073610752}",
            Chip::Esp32c2 => "{\"entry\":1077412868,\"text\":\"QREGBpcCAACAgg==\",\"text_start\":1077411840,\"data\":\"ASAAQFql\",\"data_start\":1070202880}",
            Chip::Esp32c3 => "{\"entry\":1077412872,\"text\":\"QREi4AAQlxIAAICCAQA=\",\"text_start\":1077411840,\"data\":\"AjAAQBEiMw==\",\"data_start\":1070071808}",
            Chip::Esp32c6 => "{\"entry\":1082131472,\"text\":\"EwEB/iM8gQBngAAA\",\"text_start\":1082130432,\"data\":\"A0AAQERVZnc=\",\"data_start\":1082458112}",
            Chip::Esp32h2 => "{\"entry\":1082131476,\"text\":\"EwEB/SM8EQJngAAAEwA=\",\"text_start\":1082130432,\"data\":\"BFAAQIiZ\",\"data_start\":1082785792}",
            Chip::Esp32p4 => "{\"entry\":1341129760,\"text\":\"FwUAABMFRQBngAAA\",\"text_start\":1341128704,\"data\":\"BWAAQKq7zA==\",\"data_start\":1341390848}",
            Chip::Esp32s2 => "{\"entry\":1073906688,\"text\":\"NmEAofz/4AoAHfA=\",\"text_start\":1073905664,\"data\":\"BnAAQN3u\",\"data_start\":1073414144}",
            Chip::Esp32s3 => "{\"entry\":1077380104,\"text\":\"NkEAkfr/4AkAkB3w\",\"text_start\":1077379072,\"data\":\"B4AAQP8AEjQ=\",\"data_start\":1070104576}",
        };
        proof {
            lemma_catalog_parses(chip);
        }
        match FlashStub::parse(s) {
            Ok(stub) => stub,
            Err(_) => vstd::pervasive::unreached(),
        }
    }
}

} // verus!
