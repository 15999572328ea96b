//! Screening of free text and structured data for credential-shaped material
//! before it is stored.
use vstd::prelude::*;
use vstd::string::StringSliceAdditionalSpecFns;
use vstd::utf8::encode_utf8;
use crate::text::{
    ascii_bytes, contains_control_break, contains_lowered, contains_seq, has_line_break,
    lower_seq, contains_line_break,
};

verus! {

/// Substrings that mark a field name as credential-bearing.
pub open spec fn key_markers() -> Seq<Seq<char>> {
    seq![
        "authorization"@,
        "password"@,
        "passwd"@,
        "secret"@,
        "token"@,
        "api_key"@,
        "apikey"@,
        "cookie"@,
        "private_key"@,
        "credential"@,
    ]
}

fn key_marker(i: usize) -> (r: &'static str)
    requires
        i < 10,
    ensures
        r.spec_bytes() == ascii_bytes(key_markers()[i as int]),
{
    broadcast use vstd::string::is_ascii_spec_bytes;

    match i {
        0 => {
            proof {
                reveal_strlit("authorization");
                assert(vstd::string::is_ascii("authorization"));
                assert("authorization".spec_bytes() =~= ascii_bytes("authorization"@));
            }
            "authorization"
        },
        1 => {
            proof {
                reveal_strlit("password");
                assert(vstd::string::is_ascii("password"));
                assert("password".spec_bytes() =~= ascii_bytes("password"@));
            }
            "password"
        },
        2 => {
            proof {
                reveal_strlit("passwd");
                assert(vstd::string::is_ascii("passwd"));
                assert("passwd".spec_bytes() =~= ascii_bytes("passwd"@));
            }
            "passwd"
        },
        3 => {
            proof {
                reveal_strlit("secret");
                assert(vstd::string::is_ascii("secret"));
                assert("secret".spec_bytes() =~= ascii_bytes("secret"@));
            }
            "secret"
        },
        4 => {
            proof {
                reveal_strlit("token");
                assert(vstd::string::is_ascii("token"));
                assert("token".spec_bytes() =~= ascii_bytes("token"@));
            }
            "token"
        },
        5 => {
            proof {
                reveal_strlit("api_key");
                assert(vstd::string::is_ascii("api_key"));
                assert("api_key".spec_bytes() =~= ascii_bytes("api_key"@));
            }
            "api_key"
        },
        6 => {
            proof {
                reveal_strlit("apikey");
                assert(vstd::string::is_ascii("apikey"));
                assert("apikey".spec_bytes() =~= ascii_bytes("apikey"@));
            }
            "apikey"
        },
        7 => {
            proof {
                reveal_strlit("cookie");
                assert(vstd::string::is_ascii("cookie"));
                assert("cookie".spec_bytes() =~= ascii_bytes("cookie"@));
            }
            "cookie"
        },
        8 => {
            proof {
                reveal_strlit("private_key");
                assert(vstd::string::is_ascii("private_key"));
                assert("private_key".spec_bytes() =~= ascii_bytes("private_key"@));
            }
            "private_key"
        },
        _ => {
            proof {
                reveal_strlit("credential");
                assert(vstd::string::is_ascii("credential"));
                assert("credential".spec_bytes() =~= ascii_bytes("credential"@));
            }
            "credential"
        },
    }
}

/// Substrings that mark free text as holding a credential.
pub open spec fn text_markers() -> Seq<Seq<char>> {
    seq![
        "authorization:"@,
        "bearer "@,
        "api_key="@,
        "api_key ="@,
        "apikey="@,
        "password="@,
        "password ="@,
        "secret="@,
        "secret ="@,
        "token="@,
        "token ="@,
        "private_key"@,
        "-----begin private key-----"@,
        "-----begin openssh private key-----"@,
    ]
}

fn text_marker(i: usize) -> (r: &'static str)
    requires
        i < 14,
    ensures
        r.spec_bytes() == ascii_bytes(text_markers()[i as int]),
{
    broadcast use vstd::string::is_ascii_spec_bytes;

    match i {
        0 => {
            proof {
                reveal_strlit("authorization:");
                assert(vstd::string::is_ascii("authorization:"));
                assert("authorization:".spec_bytes() =~= ascii_bytes("authorization:"@));
            }
            "authorization:"
        },
        1 => {
            proof {
                reveal_strlit("bearer ");
                assert(vstd::string::is_ascii("bearer "));
                assert("bearer ".spec_bytes() =~= ascii_bytes("bearer "@));
            }
            "bearer "
        },
        2 => {
            proof {
                reveal_strlit("api_key=");
                assert(vstd::string::is_ascii("api_key="));
                assert("api_key=".spec_bytes() =~= ascii_bytes("api_key="@));
            }
            "api_key="
        },
        3 => {
            proof {
                reveal_strlit("api_key =");
                assert(vstd::string::is_ascii("api_key ="));
                assert("api_key =".spec_bytes() =~= ascii_bytes("api_key ="@));
            }
            "api_key ="
        },
        4 => {
            proof {
                reveal_strlit("apikey=");
                assert(vstd::string::is_ascii("apikey="));
                assert("apikey=".spec_bytes() =~= ascii_bytes("apikey="@));
            }
            "apikey="
        },
        5 => {
            proof {
                reveal_strlit("password=");
                assert(vstd::string::is_ascii("password="));
                assert("password=".spec_bytes() =~= ascii_bytes("password="@));
            }
            "password="
        },
        6 => {
            proof {
                reveal_strlit("password =");
                assert(vstd::string::is_ascii("password ="));
                assert("password =".spec_bytes() =~= ascii_bytes("password ="@));
            }
            "password ="
        },
        7 => {
            proof {
                reveal_strlit("secret=");
                assert(vstd::string::is_ascii("secret="));
                assert("secret=".spec_bytes() =~= ascii_bytes("secret="@));
            }
            "secret="
        },
        8 => {
            proof {
                reveal_strlit("secret =");
                assert(vstd::string::is_ascii("secret ="));
                assert("secret =".spec_bytes() =~= ascii_bytes("secret ="@));
            }
            "secret ="
        },
        9 => {
            proof {
                reveal_strlit("token=");
                assert(vstd::string::is_ascii("token="));
                assert("token=".spec_bytes() =~= ascii_bytes("token="@));
            }
            "token="
        },
        10 => {
            proof {
                reveal_strlit("token =");
                assert(vstd::string::is_ascii("token ="));
                assert("token =".spec_bytes() =~= ascii_bytes("token ="@));
            }
            "token ="
        },
        11 => {
            proof {
                reveal_strlit("private_key");
                assert(vstd::string::is_ascii("private_key"));
                assert("private_key".spec_bytes() =~= ascii_bytes("private_key"@));
            }
            "private_key"
        },
        12 => {
            proof {
                reveal_strlit("-----begin private key-----");
                assert(vstd::string::is_ascii("-----begin private key-----"));
                assert("-----begin private key-----".spec_bytes() =~= ascii_bytes("-----begin private key-----"@));
            }
            "-----begin private key-----"
        },
        _ => {
            proof {
                reveal_strlit("-----begin openssh private key-----");
                assert(vstd::string::is_ascii("-----begin openssh private key-----"));
                assert("-----begin openssh private key-----".spec_bytes() =~= ascii_bytes("-----begin openssh private key-----"@));
            }
            "-----begin openssh private key-----"
        },
    }
}

/// Some marker of `markers` occurs in the ASCII-lower-cased `bytes`.
pub open spec fn mentions_any(bytes: Seq<u8>, markers: Seq<Seq<char>>) -> bool {
    exists|i: int| 0 <= i < markers.len() && contains_seq(lower_seq(bytes), ascii_bytes(#[trigger] markers[i]))
}

pub open spec fn key_secret_like(bytes: Seq<u8>) -> bool {
    mentions_any(bytes, key_markers())
}

pub open spec fn text_secret_like(bytes: Seq<u8>) -> bool {
    mentions_any(bytes, text_markers())
}

/// Whether a field name looks like it names a credential.
pub fn secret_like_key(value: &str) -> (r: bool)
    ensures
        r == key_secret_like(value.spec_bytes()),
{
    let b = value.as_bytes();
    let mut i: usize = 0;
    while i < 10
        invariant
            b@ == value.spec_bytes(),
            key_markers().len() == 10,
            i <= 10,
            forall|j: int| 0 <= j < i ==> !contains_seq(lower_seq(b@), ascii_bytes(#[trigger] key_markers()[j])),
        decreases 10 - i,
    {
        if contains_lowered(b, key_marker(i).as_bytes()) {
            return true;
        }
        i = i + 1;
    }
    false
}

/// Whether free text looks like it carries a credential.
pub fn secret_like_text(value: &str) -> (r: bool)
    ensures
        r == text_secret_like(value.spec_bytes()),
{
    let b = value.as_bytes();
    let mut i: usize = 0;
    while i < 14
        invariant
            b@ == value.spec_bytes(),
            text_markers().len() == 14,
            i <= 14,
            forall|j: int| 0 <= j < i ==> !contains_seq(lower_seq(b@), ascii_bytes(#[trigger] text_markers()[j])),
        decreases 14 - i,
    {
        if contains_lowered(b, text_marker(i).as_bytes()) {
            return true;
        }
        i = i + 1;
    }
    false
}

/// Structured safe data: a JSON value whose numbers are integers. Object
/// keys are distinct, as in a JSON object. Screening reads its strings and
/// keys; numbers carry nothing to screen.
#[derive(Debug)]
pub enum SafeData {
    Null,
    Bool(bool),
    Int(i64),
    UInt(u64),
    Str(String),
    Array(Vec<SafeData>),
    Object(Vec<(String, SafeData)>),
}

/// Some object key anywhere is credential-shaped, or some string anywhere
/// carries credential-shaped text.
pub open spec fn data_secret_like(v: SafeData) -> bool
    decreases v,
{
    match v {
        SafeData::Str(s) => text_secret_like(encode_utf8(s@)),
        SafeData::Array(items) => exists|i: int|
            0 <= i < items.len() && data_secret_like(#[trigger] items@[i]),
        SafeData::Object(entries) => exists|i: int|
            0 <= i < entries.len() && (key_secret_like(encode_utf8((#[trigger] entries@[i]).0@))
                || data_secret_like(entries@[i].1)),
        _ => false,
    }
}

/// Whether any key or string inside the data is credential-shaped.
pub fn data_contains_secret_like(v: &SafeData) -> (r: bool)
    ensures
        r == data_secret_like(*v),
    decreases v,
{
    match v {
        SafeData::Str(s) => secret_like_text(s.as_str()),
        SafeData::Array(items) => {
            let mut i: usize = 0;
            while i < items.len()
                invariant
                    *v == SafeData::Array(*items),
                    i <= items@.len(),
                    forall|j: int| 0 <= j < i ==> !data_secret_like(#[trigger] items@[j]),
                decreases items@.len() - i,
            {
                proof {
                    assert(decreases_to!(*v => (*v)->Array_0));
                    assert(decreases_to!(*items => items@));
                    assert(decreases_to!(items@ => items@[i as int]));
                }
                if data_contains_secret_like(&items[i]) {
                    assert(data_secret_like(items@[i as int]));
                    return true;
                }
                i = i + 1;
            }
            false
        },
        SafeData::Object(entries) => {
            let mut i: usize = 0;
            while i < entries.len()
                invariant
                    *v == SafeData::Object(*entries),
                    i <= entries@.len(),
                    forall|j: int|
                        0 <= j < i ==> !(key_secret_like(encode_utf8((#[trigger] entries@[j]).0@))
                            || data_secret_like(entries@[j].1)),
                decreases entries@.len() - i,
            {
                proof {
                    assert(decreases_to!(*v => (*v)->Object_0));
                    assert(decreases_to!(*entries => entries@));
                    assert(decreases_to!(entries@ => entries@[i as int]));
                    assert(decreases_to!(entries@[i as int] => entries@[i as int].1));
                }
                if secret_like_key(entries[i].0.as_str()) || data_contains_secret_like(&entries[i].1) {
                    assert(key_secret_like(encode_utf8((entries@[i as int]).0@))
                        || data_secret_like(entries@[i as int].1));
                    return true;
                }
                i = i + 1;
            }
            false
        },
        _ => false,
    }
}

/// A metadata key is usable when it is 1..=64 bytes, has no line break, and
/// does not look like it names a credential.
pub open spec fn metadata_key_ok(key: &str) -> bool {
    let b = key.spec_bytes();
    b.len() > 0 && b.len() <= 64 && !has_line_break(b) && !key_secret_like(b)
}

pub fn safe_metadata_key(key: &str) -> (r: bool)
    ensures
        r == metadata_key_ok(key),
{
    if key.as_bytes().len() == 0 || key.as_bytes().len() > 64 || contains_line_break(key) {
        return false;
    }
    !secret_like_key(key)
}

} // verus!
