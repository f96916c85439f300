//! Decoding of the GCS test-permissions response: the wire format is
//! `{ "kind": ..., "permissions": [ "..." , ... ] }` with the permission
//! array optional — an absent field means the caller holds none of the
//! candidate permissions.

use vstd::prelude::*;

use crate::text::{find_from, find_str, lemma_find_from_some};

verus! {

/// JSON whitespace.
pub open spec fn is_ws(c: char) -> bool {
    c == ' ' || c == '\t' || c == '\n' || c == '\r'
}

/// The decoder's position in the permission-array grammar: expecting the
/// colon after the key, the opening bracket, an item or the end, inside a
/// string begun at the held position, after a string, or after a comma.
pub enum PState {
    Colon,
    Brack,
    Item,
    Str(int),
    After,
    Sep,
}

/// Scans `h` from position `p` in state `st`, collecting the quoted
/// strings of the permission array into `acc`; `None` on any input that
/// leaves the grammar.
pub open spec fn spec_scan_items(h: Seq<char>, p: int, st: PState, acc: Seq<Seq<char>>) -> Option<
    Seq<Seq<char>>,
>
    recommends
        0 <= p,
    decreases h.len() - p,
    when 0 <= p
{
    if p >= h.len() {
        Option::None
    } else {
        let c = h[p];
        match st {
            PState::Colon => if c == ':' {
                spec_scan_items(h, p + 1, PState::Brack, acc)
            } else if is_ws(c) {
                spec_scan_items(h, p + 1, PState::Colon, acc)
            } else {
                Option::None
            },
            PState::Brack => if c == '[' {
                spec_scan_items(h, p + 1, PState::Item, acc)
            } else if is_ws(c) {
                spec_scan_items(h, p + 1, PState::Brack, acc)
            } else {
                Option::None
            },
            PState::Item => if c == ']' {
                Option::Some(acc)
            } else if c == '"' {
                spec_scan_items(h, p + 1, PState::Str(p + 1), acc)
            } else if is_ws(c) {
                spec_scan_items(h, p + 1, PState::Item, acc)
            } else {
                Option::None
            },
            PState::Str(start) => if c == '"' {
                spec_scan_items(h, p + 1, PState::After, acc.push(h.subrange(start, p)))
            } else {
                spec_scan_items(h, p + 1, PState::Str(start), acc)
            },
            PState::After => if c == ']' {
                Option::Some(acc)
            } else if c == ',' {
                spec_scan_items(h, p + 1, PState::Sep, acc)
            } else if is_ws(c) {
                spec_scan_items(h, p + 1, PState::After, acc)
            } else {
                Option::None
            },
            PState::Sep => if c == '"' {
                spec_scan_items(h, p + 1, PState::Str(p + 1), acc)
            } else if is_ws(c) {
                spec_scan_items(h, p + 1, PState::Sep, acc)
            } else {
                Option::None
            },
        }
    }
}

/// The permission list a test-permissions body reports: the empty list
/// when the field is absent, the array's strings when it decodes, and
/// nothing when the body is malformed.
pub open spec fn spec_permissions_of(h: Seq<char>) -> Option<Seq<Seq<char>>> {
    match find_from(h, "\"permissions\""@, 0) {
        Option::None => Option::Some(Seq::<Seq<char>>::empty()),
        Option::Some(i) => spec_scan_items(
            h,
            i + "\"permissions\""@.len(),
            PState::Colon,
            Seq::<Seq<char>>::empty(),
        ),
    }
}

/// Connects the scanner's progress back to the body's permission list:
/// once the key has been found, the list is whatever the scan from the
/// key's end yields.
proof fn lemma_connect(h: Seq<char>, i: int, p: int, st: PState, acc: Seq<Seq<char>>)
    requires
        find_from(h, "\"permissions\""@, 0) == Option::Some(i),
        spec_scan_items(h, i + "\"permissions\""@.len(), PState::Colon, Seq::<Seq<char>>::empty())
            == spec_scan_items(h, p, st, acc),
    ensures
        spec_permissions_of(h) == spec_scan_items(h, p, st, acc),
{
}

/// The decoder state held by the executable scanner.
pub open spec fn pstate_of(st: u8, start: int) -> PState {
    if st == 0 {
        PState::Colon
    } else if st == 1 {
        PState::Brack
    } else if st == 2 {
        PState::Item
    } else if st == 3 {
        PState::Str(start)
    } else if st == 4 {
        PState::After
    } else {
        PState::Sep
    }
}

/// Decodes the permission list of a test-permissions body.
pub fn parse_permissions(h: &str) -> (r: Option<Vec<String>>)
    ensures
        match r {
            Option::Some(v) => spec_permissions_of(h@) == Option::Some(v.deep_view()),
            Option::None => spec_permissions_of(h@) is None,
        },
{
    let key = "\"permissions\"";
    match find_str(h, key, 0) {
        Option::None => {
            let v: Vec<String> = Vec::new();
            proof {
                assert(v.deep_view() =~= Seq::<Seq<char>>::empty());
            }
            Option::Some(v)
        },
        Option::Some(i) => {
            let hl = h.unicode_len();
            let kl = key.unicode_len();
            proof {
                lemma_find_from_some(h@, key@, 0, i as int);
            }
            let mut p = i + kl;
            let ghost p0: int = p as int;
            let mut st: u8 = 0;
            let mut start: usize = 0;
            let mut acc: Vec<String> = Vec::new();
            proof {
                assert(acc.deep_view() =~= Seq::<Seq<char>>::empty());
            }
            while p < hl
                invariant
                    hl == h@.len(),
                    p0 <= p <= hl,
                    p0 == i + "\"permissions\""@.len(),
                    find_from(h@, "\"permissions\""@, 0) == Option::Some(i as int),
                    st <= 5,
                    st == 3 ==> 0 <= start <= p,
                    spec_scan_items(h@, p0, PState::Colon, Seq::<Seq<char>>::empty())
                        == spec_scan_items(h@, p as int, pstate_of(st, start as int), acc.deep_view()),
                decreases hl - p,
            {
                let c = h.get_char(p);
                proof {
                    lemma_connect(
                        h@,
                        i as int,
                        p as int,
                        pstate_of(st, start as int),
                        acc.deep_view(),
                    );
                }
                if st == 0 {
                    if c == ':' {
                        st = 1;
                    } else if c == ' ' || c == '\t' || c == '\n' || c == '\r' {
                    } else {
                        return Option::None;
                    }
                } else if st == 1 {
                    if c == '[' {
                        st = 2;
                    } else if c == ' ' || c == '\t' || c == '\n' || c == '\r' {
                    } else {
                        return Option::None;
                    }
                } else if st == 2 {
                    if c == ']' {
                        return Option::Some(acc);
                    } else if c == '"' {
                        st = 3;
                        start = p + 1;
                    } else if c == ' ' || c == '\t' || c == '\n' || c == '\r' {
                    } else {
                        return Option::None;
                    }
                } else if st == 3 {
                    if c == '"' {
                        let item = h.substring_char(start, p).to_owned();
                        let ghost old_acc = acc.deep_view();
                        acc.push(item);
                        proof {
                            assert(acc.deep_view() =~= old_acc.push(h@.subrange(
                                start as int,
                                p as int,
                            )));
                        }
                        st = 4;
                    }
                } else if st == 4 {
                    if c == ']' {
                        return Option::Some(acc);
                    } else if c == ',' {
                        st = 5;
                    } else if c == ' ' || c == '\t' || c == '\n' || c == '\r' {
                    } else {
                        return Option::None;
                    }
                } else {
                    if c == '"' {
                        st = 3;
                        start = p + 1;
                    } else if c == ' ' || c == '\t' || c == '\n' || c == '\r' {
                    } else {
                        return Option::None;
                    }
                }
                p = p + 1;
            }
            proof {
                lemma_connect(
                    h@,
                    i as int,
                    p as int,
                    pstate_of(st, start as int),
                    acc.deep_view(),
                );
            }
            Option::None
        },
    }
}

/// A body in which the permission field does not occur reports the empty
/// permission set.
pub proof fn lemma_absent_permissions_empty(h: Seq<char>)
    requires
        find_from(h, "\"permissions\""@, 0) is None,
    ensures
        spec_permissions_of(h) == Option::Some(Seq::<Seq<char>>::empty()),
{
}

} // verus!
