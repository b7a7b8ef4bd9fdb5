//! Stable identity of a finding, and the value a settings lookup yields.
use std::collections::hash_map::DefaultHasher;
use std::hash::Hasher;
use vstd::prelude::*;
use vstd::std_specs::hash::DefaultHasherAdditionalSpecFns;
use vstd::utf8::encode_utf8;

use crate::text::{hex_digits, hex_value, lemma_hex_digits_denote, pow16, push_hex_digits};

verus! {

/// The bytes that hashing one `str` feeds a hasher: its UTF-8 encoding,
/// then the terminator byte `0xff` (which never occurs in UTF-8 text).
pub open spec fn str_hash_writes(s: Seq<char>) -> Seq<Seq<u8>> {
    seq![encode_utf8(s), seq![0xffu8]]
}

/// A missing optional field is hashed as the empty string.
pub open spec fn or_empty(field: Option<Seq<char>>) -> Seq<char> {
    match field {
        Some(s) => s,
        None => Seq::empty(),
    }
}

/// Everything a fresh `DefaultHasher` is fed for one finding, in order.
pub open spec fn fingerprint_writes(
    tool: Seq<char>,
    title: Seq<char>,
    file_path: Option<Seq<char>>,
    cwe_id: Option<Seq<char>>,
) -> Seq<Seq<u8>> {
    str_hash_writes(tool) + str_hash_writes(title) + str_hash_writes(or_empty(file_path))
        + str_hash_writes(or_empty(cwe_id))
}

/// The 64-bit hash of a finding's identifying fields.
pub open spec fn fingerprint_hash(
    tool: Seq<char>,
    title: Seq<char>,
    file_path: Option<Seq<char>>,
    cwe_id: Option<Seq<char>>,
) -> u64 {
    DefaultHasher::spec_finish(fingerprint_writes(tool, title, file_path, cwe_id))
}

/// The fingerprint text: the hash as 16 lower-case hexadecimal digits.
pub open spec fn fingerprint_text(
    tool: Seq<char>,
    title: Seq<char>,
    file_path: Option<Seq<char>>,
    cwe_id: Option<Seq<char>>,
) -> Seq<char> {
    hex_digits(fingerprint_hash(tool, title, file_path, cwe_id) as nat, 16)
}

pub open spec fn opt_view(field: Option<&str>) -> Option<Seq<char>> {
    match field {
        Some(s) => Some(s@),
        None => None,
    }
}

/// Feeds `s` to the hasher the way `<str as Hash>::hash` does: the UTF-8
/// bytes, then a single `0xff` byte.
fn hash_str_field(hasher: &mut DefaultHasher, s: &str)
    ensures
        final(hasher)@ == old(hasher)@ + str_hash_writes(s@),
{
    hasher.write(s.as_bytes());
    let terminator: Vec<u8> = vec![0xffu8];
    hasher.write(terminator.as_slice());
    proof {
        assert(terminator@ == seq![0xffu8]);
    }
}

/// Stable identity for a finding, independent of the scan and of the row
/// that holds it: the `DefaultHasher` hash of tool, title, file path and CWE
/// id (a missing path or CWE id counts as the empty string), written as 16
/// lower-case hexadecimal digits.
pub fn compute_fingerprint(
    tool: &str,
    title: &str,
    file_path: Option<&str>,
    cwe_id: Option<&str>,
) -> (fingerprint: String)
    ensures
        fingerprint@ == fingerprint_text(tool@, title@, opt_view(file_path), opt_view(cwe_id)),
{
    proof {
        reveal_strlit("");
    }
    let path: &str = match file_path {
        Some(p) => p,
        None => "",
    };
    let cwe: &str = match cwe_id {
        Some(c) => c,
        None => "",
    };
    let mut hasher = DefaultHasher::new();
    hash_str_field(&mut hasher, tool);
    hash_str_field(&mut hasher, title);
    hash_str_field(&mut hasher, path);
    hash_str_field(&mut hasher, cwe);
    let hash: u64 = hasher.finish();
    proof {
        assert(hasher@ =~= fingerprint_writes(
            tool@,
            title@,
            opt_view(file_path),
            opt_view(cwe_id),
        ));
    }
    let mut fingerprint = String::new();
    push_hex_digits(&mut fingerprint, hash, 16);
    fingerprint
}

/// The value `get_setting` hands back for a key: the stored value, or the
/// empty string when the row is missing or the lookup failed.
pub fn setting_value(fetched: Option<Option<String>>) -> (value: String)
    ensures
        value@ == (match fetched {
            Some(Some(v)) => v@,
            _ => Seq::<char>::empty(),
        }),
{
    match fetched {
        Some(Some(v)) => v,
        _ => String::new(),
    }
}

/// A missing file path or CWE id gives the same fingerprint as an empty one.
pub proof fn lemma_missing_field_is_empty(tool: Seq<char>, title: Seq<char>, file_path: Option<Seq<char>>, cwe_id: Option<Seq<char>>)
    ensures
        fingerprint_text(tool, title, None, cwe_id) == fingerprint_text(tool, title, Some(Seq::empty()), cwe_id),
        fingerprint_text(tool, title, file_path, None) == fingerprint_text(tool, title, file_path, Some(Seq::empty())),
{
}

/// A fingerprint is 16 lower-case hexadecimal digits that spell out the
/// whole 64-bit hash, so two findings share a fingerprint exactly when their
/// hashes are equal.
pub proof fn lemma_fingerprint_spells_hash(
    tool: Seq<char>,
    title: Seq<char>,
    file_path: Option<Seq<char>>,
    cwe_id: Option<Seq<char>>,
    tool2: Seq<char>,
    title2: Seq<char>,
    file_path2: Option<Seq<char>>,
    cwe_id2: Option<Seq<char>>,
)
    ensures
        fingerprint_text(tool, title, file_path, cwe_id).len() == 16,
        forall|i: int| 0 <= i < 16 ==> {
            let c = #[trigger] fingerprint_text(tool, title, file_path, cwe_id)[i];
            ('0' <= c <= '9') || ('a' <= c <= 'f')
        },
        hex_value(fingerprint_text(tool, title, file_path, cwe_id)) == fingerprint_hash(tool, title, file_path, cwe_id),
        (fingerprint_text(tool, title, file_path, cwe_id) == fingerprint_text(tool2, title2, file_path2, cwe_id2))
            == (fingerprint_hash(tool, title, file_path, cwe_id) == fingerprint_hash(tool2, title2, file_path2, cwe_id2)),
{
    let h1 = fingerprint_hash(tool, title, file_path, cwe_id);
    let h2 = fingerprint_hash(tool2, title2, file_path2, cwe_id2);
    lemma_hex_digits_denote(h1 as nat, 16);
    lemma_hex_digits_denote(h2 as nat, 16);
    reveal_with_fuel(pow16, 17);
    assert(pow16(16) == 0x1_0000_0000_0000_0000nat);
}

/// The hash behind a fingerprint is that of a fresh `DefaultHasher` fed,
/// in this order, the tool, the title, the file path and the CWE id, each as
/// its UTF-8 bytes followed by the byte `0xff` (the way `str` is hashed),
/// with a missing path or CWE id fed as empty text.
pub proof fn lemma_fingerprint_hashes_fields_in_order(
    tool: Seq<char>,
    title: Seq<char>,
    file_path: Option<Seq<char>>,
    cwe_id: Option<Seq<char>>,
)
    ensures
        fingerprint_hash(tool, title, file_path, cwe_id) == DefaultHasher::spec_finish(
            seq![
                encode_utf8(tool),
                seq![0xffu8],
                encode_utf8(title),
                seq![0xffu8],
                encode_utf8(match file_path {
                    Some(p) => p,
                    None => Seq::<char>::empty(),
                }),
                seq![0xffu8],
                encode_utf8(match cwe_id {
                    Some(c) => c,
                    None => Seq::<char>::empty(),
                }),
                seq![0xffu8],
            ],
        ),
{
    let explicit = seq![
        encode_utf8(tool),
        seq![0xffu8],
        encode_utf8(title),
        seq![0xffu8],
        encode_utf8(match file_path {
            Some(p) => p,
            None => Seq::<char>::empty(),
        }),
        seq![0xffu8],
        encode_utf8(match cwe_id {
            Some(c) => c,
            None => Seq::<char>::empty(),
        }),
        seq![0xffu8],
    ];
    assert(fingerprint_writes(tool, title, file_path, cwe_id) =~= explicit);
}

} // verus!
