//! The byte length of the compact JSON encoding of safe data, the encoding
//! the store keeps: `null`, `true`, `false`, decimal integers, `[a,b]` and
//! `{"k":v}` with no spaces. serde_json escapes each string; the library
//! puts the pieces together and bounds the total.
use vstd::prelude::*;
use vstd::utf8::encode_utf8;
use crate::safety::SafeData;
use crate::text::{decimal_chars, decimal_text};

verus! {

/// serde_json's encoding of one string: the quoted, escaped text.
pub uninterp spec fn json_string(s: Seq<char>) -> Seq<char>;

/// Encodes one string with `serde_json::to_string`. The contract claims only
/// that the result depends on the text alone (it is `json_string` of it);
/// what the escaping produces is left to serde_json. Serialising a string
/// does not fail, so the empty fallback is never returned.
#[verifier::external_body]
fn encode_json_string(s: &str) -> (r: String)
    ensures
        r@ == json_string(s@),
{
    match serde_json::to_string(s) {
        Ok(t) => t,
        Err(_) => String::new(),
    }
}

/// Bytes of an encoded string.
pub open spec fn string_json_len(s: Seq<char>) -> nat {
    encode_utf8(json_string(s)).len()
}

/// Bytes of an integer in decimal, with a leading `-` when negative.
pub open spec fn int_json_len(n: int) -> nat {
    if n < 0 {
        1 + encode_utf8(decimal_chars((-n) as nat)).len()
    } else {
        encode_utf8(decimal_chars(n as nat)).len()
    }
}

/// One `,` between consecutive members.
pub open spec fn separator(n: nat) -> nat {
    if n > 1 {
        1
    } else {
        0
    }
}

/// Bytes of the encoded value.
pub open spec fn json_len(v: SafeData) -> nat
    decreases v, 0nat,
{
    match v {
        SafeData::Null => 4,
        SafeData::Bool(b) => if b {
            4
        } else {
            5
        },
        SafeData::Int(n) => int_json_len(n as int),
        SafeData::UInt(n) => int_json_len(n as int),
        SafeData::Str(s) => string_json_len(s@),
        SafeData::Array(items) => {
            proof {
                assert(decreases_to!(v => items));
                assert(decreases_to!(items => items@));
            }
            2 + items_json_len(items@, items@.len())
        },
        SafeData::Object(entries) => {
            proof {
                assert(decreases_to!(v => entries));
                assert(decreases_to!(entries => entries@));
            }
            2 + entries_json_len(entries@, entries@.len())
        },
    }
}

/// Bytes of the first `n` array members with the commas between them.
pub open spec fn items_json_len(items: Seq<SafeData>, n: nat) -> nat
    decreases items, n,
{
    if n == 0 || n > items.len() {
        0
    } else {
        proof {
            assert(decreases_to!(items => items[n - 1]));
        }
        items_json_len(items, (n - 1) as nat) + json_len(items[n - 1]) + separator(n)
    }
}

/// Bytes of the first `n` object members (`"key":value`) with the commas
/// between them.
pub open spec fn entries_json_len(entries: Seq<(String, SafeData)>, n: nat) -> nat
    decreases entries, n,
{
    if n == 0 || n > entries.len() {
        0
    } else {
        proof {
            assert(decreases_to!(entries => entries[n - 1]));
            assert(decreases_to!(entries[n - 1] => entries[n - 1].1));
        }
        entries_json_len(entries, (n - 1) as nat) + string_json_len(entries[n - 1].0@) + 1 + json_len(
            entries[n - 1].1,
        ) + separator(n)
    }
}

/// Bytes of a JSON object whose values are all strings.
pub open spec fn string_map_json_len(pairs: Seq<(Seq<char>, Seq<char>)>) -> nat
    decreases pairs.len(),
{
    if pairs.len() == 0 {
        2
    } else {
        string_map_json_len(pairs.drop_last()) + string_json_len(pairs.last().0) + 1 + string_json_len(
            pairs.last().1,
        ) + separator(pairs.len())
    }
}

/// The largest bound a caller may ask for; a bounded total never overflows.
pub const MAX_JSON_LEN_BOUND: usize = 0x1000_0000;

/// The length `len` seen through the bound `cap`: itself up to the bound,
/// one past the bound beyond it.
pub open spec fn capped(len: nat, cap: nat) -> nat {
    if len <= cap {
        len
    } else {
        cap + 1
    }
}

proof fn lemma_items_monotone(items: Seq<SafeData>, i: nat, n: nat)
    requires
        i <= n <= items.len(),
    ensures
        items_json_len(items, i) <= items_json_len(items, n),
    decreases n - i,
{
    if i < n {
        lemma_items_monotone(items, i, (n - 1) as nat);
    }
}

proof fn lemma_entries_monotone(entries: Seq<(String, SafeData)>, i: nat, n: nat)
    requires
        i <= n <= entries.len(),
    ensures
        entries_json_len(entries, i) <= entries_json_len(entries, n),
    decreases n - i,
{
    if i < n {
        lemma_entries_monotone(entries, i, (n - 1) as nat);
    }
}

fn text_len(s: &str) -> (r: usize)
    ensures
        r == string_json_len(s@),
{
    let t = encode_json_string(s);
    t.as_str().as_bytes().len()
}

fn int_len(negative: bool, magnitude: u64, cap: usize) -> (r: usize)
    requires
        cap <= MAX_JSON_LEN_BOUND,
    ensures
        r == capped(
            if negative {
                1 + encode_utf8(decimal_chars(magnitude as nat)).len()
            } else {
                encode_utf8(decimal_chars(magnitude as nat)).len()
            },
            cap as nat,
        ),
{
    let t = decimal_text(magnitude);
    let n = t.as_str().as_bytes().len();
    if n > cap {
        return cap + 1;
    }
    let m = if negative {
        n + 1
    } else {
        n
    };
    if m > cap {
        cap + 1
    } else {
        m
    }
}

/// The bytes of the compact JSON encoding of `v`, or one past `cap` when
/// they exceed it.
pub fn json_len_capped(v: &SafeData, cap: usize) -> (r: usize)
    requires
        cap <= MAX_JSON_LEN_BOUND,
    ensures
        r == capped(json_len(*v), cap as nat),
    decreases v,
{
    let n: usize = match v {
        SafeData::Null => 4,
        SafeData::Bool(b) => if *b {
            4
        } else {
            5
        },
        SafeData::Int(x) => {
            if *x < 0 {
                let m: u64 = if *x == i64::MIN {
                    0x8000_0000_0000_0000u64
                } else {
                    (-*x) as u64
                };
                int_len(true, m, cap)
            } else {
                int_len(false, *x as u64, cap)
            }
        },
        SafeData::UInt(x) => int_len(false, *x, cap),
        SafeData::Str(s) => text_len(s.as_str()),
        SafeData::Array(items) => {
            let mut total: usize = 1;
            let mut i: usize = 0;
            while i < items.len()
                invariant
                    *v == SafeData::Array(*items),
                    cap <= MAX_JSON_LEN_BOUND,
                    i <= items@.len(),
                    total == 1 + items_json_len(items@, i as nat),
                    total <= cap + 1,
                decreases items@.len() - i,
            {
                proof {
                    assert(decreases_to!(*v => (*v)->Array_0));
                    assert(decreases_to!(*items => items@));
                    assert(decreases_to!(items@ => items@[i as int]));
                }
                let m = json_len_capped(&items[i], cap);
                let sep: usize = if i > 0 {
                    1
                } else {
                    0
                };
                total = total + m + sep;
                i = i + 1;
                if total > cap {
                    proof {
                        lemma_items_monotone(items@, i as nat, items@.len());
                    }
                    return cap + 1;
                }
            }
            total + 1
        },
        SafeData::Object(entries) => {
            let mut total: usize = 1;
            let mut i: usize = 0;
            while i < entries.len()
                invariant
                    *v == SafeData::Object(*entries),
                    cap <= MAX_JSON_LEN_BOUND,
                    i <= entries@.len(),
                    total == 1 + entries_json_len(entries@, i as nat),
                    total <= cap + 1,
                decreases entries@.len() - i,
            {
                proof {
                    assert(decreases_to!(*v => (*v)->Object_0));
                    assert(decreases_to!(*entries => entries@));
                    assert(decreases_to!(entries@ => entries@[i as int]));
                    assert(decreases_to!(entries@[i as int] => entries@[i as int].1));
                }
                let k = text_len(entries[i].0.as_str());
                if k > cap {
                    proof {
                        lemma_entries_monotone(entries@, (i + 1) as nat, entries@.len());
                    }
                    return cap + 1;
                }
                let m = json_len_capped(&entries[i].1, cap);
                let sep: usize = if i > 0 {
                    1
                } else {
                    0
                };
                total = total + k + 1 + m + sep;
                i = i + 1;
                if total > cap {
                    proof {
                        lemma_entries_monotone(entries@, i as nat, entries@.len());
                    }
                    return cap + 1;
                }
            }
            total + 1
        },
    };
    if n > cap {
        cap + 1
    } else {
        n
    }
}

/// The bytes of the compact JSON encoding of an object whose values are
/// all strings, or one past `cap` when they exceed it.
pub fn string_map_json_len_capped(pairs: &Vec<(String, String)>, cap: usize) -> (r: usize)
    requires
        cap <= MAX_JSON_LEN_BOUND,
    ensures
        r == capped(string_map_json_len(pairs@.map_values(|p: (String, String)| (p.0@, p.1@))), cap as nat),
{
    let ghost views = pairs@.map_values(|p: (String, String)| (p.0@, p.1@));
    proof {
        assert(views.take(views.len() as int) =~= views);
        assert(views.take(0) =~= Seq::<(Seq<char>, Seq<char>)>::empty());
    }
    if cap < 2 {
        proof {
            lemma_string_map_monotone(views, 0, views.len());
        }
        return cap + 1;
    }
    let mut total: usize = 2;
    let mut i: usize = 0;
    while i < pairs.len()
        invariant
            cap <= MAX_JSON_LEN_BOUND,
            views == pairs@.map_values(|p: (String, String)| (p.0@, p.1@)),
            views.take(views.len() as int) == views,
            i <= pairs@.len(),
            total == string_map_json_len(views.take(i as int)),
            total <= cap + 1,
        decreases pairs@.len() - i,
    {
        let k = text_len(pairs[i].0.as_str());
        let m = text_len(pairs[i].1.as_str());
        proof {
            assert(views[i as int] == (pairs@[i as int].0@, pairs@[i as int].1@));
            assert(views.take(i + 1).drop_last() =~= views.take(i as int));
            assert(views.take(i + 1).last() == views[i as int]);
        }
        if k > cap || m > cap {
            proof {
                lemma_string_map_monotone(views, (i + 1) as nat, views.len());
            }
            return cap + 1;
        }
        let sep: usize = if i > 0 {
            1
        } else {
            0
        };
        total = total + k + 1 + m + sep;
        i = i + 1;
        if total > cap {
            proof {
                lemma_string_map_monotone(views, i as nat, views.len());
            }
            return cap + 1;
        }
    }
    total
}

proof fn lemma_string_map_monotone(pairs: Seq<(Seq<char>, Seq<char>)>, i: nat, n: nat)
    requires
        i <= n <= pairs.len(),
    ensures
        string_map_json_len(pairs.take(i as int)) <= string_map_json_len(pairs.take(n as int)),
    decreases n - i,
{
    if i < n {
        lemma_string_map_monotone(pairs, i, (n - 1) as nat);
        assert(pairs.take(n as int).drop_last() =~= pairs.take(n - 1));
    }
}

} // verus!
