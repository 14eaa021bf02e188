//! JSON framing of request bodies, byte-exact: string escaping and the
//! provider's `filelist`-as-array conventions. Only emission is done here;
//! response payloads are parsed by the surrounding application.

use vstd::prelude::*;
use vstd::utf8::encode_utf8;

verus! {

/// The lowercase hexadecimal digit for `d`.
pub open spec fn spec_hex_lower(d: u8) -> u8
    recommends
        d < 16,
{
    if d < 10 {
        (0x30 + d) as u8
    } else {
        (0x57 + d) as u8
    }
}

/// How one byte of UTF-8 text appears inside a JSON string literal: quote
/// and backslash get a backslash escape, control bytes get their short
/// escape or `\u00xy`, and every other byte stands as itself.
pub open spec fn spec_json_escape_byte(b: u8) -> Seq<u8> {
    if b == 0x22 {
        seq![0x5cu8, 0x22u8]
    } else if b == 0x5c {
        seq![0x5cu8, 0x5cu8]
    } else if b == 0x08 {
        seq![0x5cu8, 0x62u8]
    } else if b == 0x09 {
        seq![0x5cu8, 0x74u8]
    } else if b == 0x0a {
        seq![0x5cu8, 0x6eu8]
    } else if b == 0x0c {
        seq![0x5cu8, 0x66u8]
    } else if b == 0x0d {
        seq![0x5cu8, 0x72u8]
    } else if b < 0x20 {
        seq![0x5cu8, 0x75u8, 0x30u8, 0x30u8, spec_hex_lower(b / 16), spec_hex_lower(b % 16)]
    } else {
        seq![b]
    }
}

/// The escaped form of a whole byte sequence.
pub open spec fn spec_json_escaped(s: Seq<u8>) -> Seq<u8>
    decreases s.len(),
{
    if s.len() == 0 {
        Seq::empty()
    } else {
        spec_json_escaped(s.drop_last()) + spec_json_escape_byte(s.last())
    }
}

/// A JSON string literal holding the UTF-8 text `bytes`.
pub open spec fn spec_json_string(bytes: Seq<u8>) -> Seq<u8> {
    seq![0x22u8] + spec_json_escaped(bytes) + seq![0x22u8]
}

/// A JSON string literal holding the text `s`.
pub open spec fn spec_json_string_of(s: Seq<char>) -> Seq<u8> {
    spec_json_string(encode_utf8(s))
}

/// Appends the UTF-8 bytes of `s` to `out`.
pub fn append_str_bytes(out: &mut Vec<u8>, s: &str)
    ensures
        final(out)@ == old(out)@ + encode_utf8(s@),
{
    let b = s.as_bytes();
    out.extend_from_slice(b);
}

/// Appends the escaped form of `data` to `out`.
pub fn append_json_escaped(out: &mut Vec<u8>, data: &[u8])
    ensures
        final(out)@ == old(out)@ + spec_json_escaped(data@),
{
    let len = data.len();
    for i in 0..len
        invariant
            len == data@.len(),
            out@ == old(out)@ + spec_json_escaped(data@.take(i as int)),
    {
        let b = *vstd::slice::slice_index_get(data, i);
        if b == 0x22 {
            out.push(0x5c);
            out.push(0x22);
        } else if b == 0x5c {
            out.push(0x5c);
            out.push(0x5c);
        } else if b == 0x08 {
            out.push(0x5c);
            out.push(0x62);
        } else if b == 0x09 {
            out.push(0x5c);
            out.push(0x74);
        } else if b == 0x0a {
            out.push(0x5c);
            out.push(0x6e);
        } else if b == 0x0c {
            out.push(0x5c);
            out.push(0x66);
        } else if b == 0x0d {
            out.push(0x5c);
            out.push(0x72);
        } else if b < 0x20 {
            out.push(0x5c);
            out.push(0x75);
            out.push(0x30);
            out.push(0x30);
            let hi = b / 16;
            let lo = b % 16;
            out.push(if hi < 10 { 0x30 + hi } else { 0x57 + hi });
            out.push(if lo < 10 { 0x30 + lo } else { 0x57 + lo });
        } else {
            out.push(b);
        }
        proof {
            assert(data@.take(i + 1).drop_last() =~= data@.take(i as int));
            assert(data@.take(i + 1).last() == b);
            assert(out@ == old(out)@ + spec_json_escaped(data@.take(i + 1)));
        }
    }
    proof {
        assert(data@.take(len as int) =~= data@);
    }
}

/// Appends the JSON string literal holding `s` to `out`.
pub fn append_json_string(out: &mut Vec<u8>, s: &str)
    ensures
        final(out)@ == old(out)@ + spec_json_string_of(s@),
{
    out.push(0x22);
    append_json_escaped(out, s.as_bytes());
    out.push(0x22);
    proof {
        assert(final(out)@ =~= old(out)@ + spec_json_string_of(s@));
    }
}

/// The comma-joined JSON string literals of `items`, without the brackets.
pub open spec fn spec_string_list_items(items: Seq<Seq<char>>) -> Seq<u8>
    decreases items.len(),
{
    if items.len() == 0 {
        Seq::empty()
    } else if items.len() == 1 {
        spec_json_string_of(items.last())
    } else {
        spec_string_list_items(items.drop_last()) + seq![0x2cu8] + spec_json_string_of(
            items.last(),
        )
    }
}

/// A JSON array of string literals: how a digest list is serialized before
/// it is embedded in a precreate or create body.
pub open spec fn spec_json_string_list(items: Seq<Seq<char>>) -> Seq<u8> {
    seq![0x5bu8] + spec_string_list_items(items) + seq![0x5du8]
}

/// Appends the JSON array of string literals holding `items` to `out`.
pub fn append_json_string_list(out: &mut Vec<u8>, items: &Vec<String>)
    ensures
        final(out)@ == old(out)@ + spec_json_string_list(items.deep_view()),
{
    out.push(0x5b);
    let len = items.len();
    for i in 0..len
        invariant
            len == items@.len(),
            out@ == old(out)@ + seq![0x5bu8] + spec_string_list_items(
                items.deep_view().take(i as int),
            ),
    {
        if i > 0 {
            out.push(0x2c);
        }
        append_json_string(out, items[i].as_str());
        proof {
            assert(items.deep_view().take(i + 1).drop_last() =~= items.deep_view().take(i as int));
            assert(items.deep_view().take(i + 1).last() == items@[i as int]@);
            assert(out@ == old(out)@ + seq![0x5bu8] + spec_string_list_items(
                items.deep_view().take(i + 1),
            ));
        }
    }
    out.push(0x5d);
    proof {
        assert(items.deep_view().take(len as int) =~= items.deep_view());
        assert(final(out)@ =~= old(out)@ + spec_json_string_list(items.deep_view()));
    }
}

/// One entry of a delete list: an object holding one remote path.
pub open spec fn spec_path_entry(p: Seq<char>) -> Seq<u8> {
    encode_utf8("{\"path\":"@) + spec_json_string_of(p) + encode_utf8("}"@)
}

/// The comma-joined entries of a delete list, without the brackets.
pub open spec fn spec_path_list_items(paths: Seq<Seq<char>>) -> Seq<u8>
    decreases paths.len(),
{
    if paths.len() == 0 {
        Seq::empty()
    } else if paths.len() == 1 {
        spec_path_entry(paths.last())
    } else {
        spec_path_list_items(paths.drop_last()) + seq![0x2cu8] + spec_path_entry(paths.last())
    }
}

/// The delete-list document: a JSON array of single-path objects.
pub open spec fn spec_json_path_list(paths: Seq<Seq<char>>) -> Seq<u8> {
    seq![0x5bu8] + spec_path_list_items(paths) + seq![0x5du8]
}

/// Appends the delete-list document holding `paths` to `out`.
pub fn append_json_path_list(out: &mut Vec<u8>, paths: &Vec<String>)
    ensures
        final(out)@ == old(out)@ + spec_json_path_list(paths.deep_view()),
{
    out.push(0x5b);
    let len = paths.len();
    for i in 0..len
        invariant
            len == paths@.len(),
            out@ == old(out)@ + seq![0x5bu8] + spec_path_list_items(
                paths.deep_view().take(i as int),
            ),
    {
        if i > 0 {
            out.push(0x2c);
        }
        append_str_bytes(out, "{\"path\":");
        append_json_string(out, paths[i].as_str());
        append_str_bytes(out, "}");
        proof {
            assert(paths.deep_view().take(i + 1).drop_last() =~= paths.deep_view().take(i as int));
            assert(paths.deep_view().take(i + 1).last() == paths@[i as int]@);
            assert(out@ =~= old(out)@ + seq![0x5bu8] + spec_path_list_items(
                paths.deep_view().take(i + 1),
            ));
        }
    }
    out.push(0x5d);
    proof {
        assert(paths.deep_view().take(len as int) =~= paths.deep_view());
        assert(final(out)@ =~= old(out)@ + spec_json_path_list(paths.deep_view()));
    }
}

/// One entry of a move or copy list: source path, destination, new name.
pub open spec fn spec_move_entry(from: Seq<char>, to: Seq<char>) -> Seq<u8> {
    encode_utf8("{\"dest\":"@) + spec_json_string_of(to) + encode_utf8(",\"newname\":"@)
        + spec_json_string_of(to) + encode_utf8(",\"path\":"@) + spec_json_string_of(from)
        + encode_utf8("}"@)
}

/// The comma-joined entries of a move or copy list, without the brackets.
pub open spec fn spec_move_list_items(from: Seq<Seq<char>>, to: Seq<Seq<char>>) -> Seq<u8>
    recommends
        from.len() == to.len(),
    decreases from.len(),
{
    if from.len() == 0 {
        Seq::empty()
    } else if from.len() == 1 {
        spec_move_entry(from.last(), to.last())
    } else {
        spec_move_list_items(from.drop_last(), to.drop_last()) + seq![0x2cu8] + spec_move_entry(
            from.last(),
            to.last(),
        )
    }
}

/// The move/copy-list document: a JSON array of move entries.
pub open spec fn spec_json_move_list(from: Seq<Seq<char>>, to: Seq<Seq<char>>) -> Seq<u8> {
    seq![0x5bu8] + spec_move_list_items(from, to) + seq![0x5du8]
}

/// Appends the move/copy-list document pairing `from` with `to` to `out`.
#[verifier::rlimit(60)]
pub fn append_json_move_list(out: &mut Vec<u8>, from: &Vec<String>, to: &Vec<String>)
    requires
        from@.len() == to@.len(),
    ensures
        final(out)@ == old(out)@ + spec_json_move_list(from.deep_view(), to.deep_view()),
{
    out.push(0x5b);
    let len = from.len();
    for i in 0..len
        invariant
            len == from@.len(),
            len == to@.len(),
            out@ == old(out)@ + seq![0x5bu8] + spec_move_list_items(
                from.deep_view().take(i as int),
                to.deep_view().take(i as int),
            ),
    {
        if i > 0 {
            out.push(0x2c);
        }
        append_str_bytes(out, "{\"dest\":");
        append_json_string(out, to[i].as_str());
        append_str_bytes(out, ",\"newname\":");
        append_json_string(out, to[i].as_str());
        append_str_bytes(out, ",\"path\":");
        append_json_string(out, from[i].as_str());
        append_str_bytes(out, "}");
        proof {
            assert(from.deep_view().take(i + 1).drop_last() =~= from.deep_view().take(i as int));
            assert(to.deep_view().take(i + 1).drop_last() =~= to.deep_view().take(i as int));
            assert(from.deep_view().take(i + 1).last() == from@[i as int]@);
            assert(to.deep_view().take(i + 1).last() == to@[i as int]@);
            assert(out@ =~= old(out)@ + seq![0x5bu8] + spec_move_list_items(
                from.deep_view().take(i + 1),
                to.deep_view().take(i + 1),
            ));
        }
    }
    out.push(0x5d);
    proof {
        assert(from.deep_view().take(len as int) =~= from.deep_view());
        assert(to.deep_view().take(len as int) =~= to.deep_view());
        assert(final(out)@ =~= old(out)@ + spec_json_move_list(from.deep_view(), to.deep_view()));
    }
}

/// The rename-list document: one entry carrying the path and its new name.
pub open spec fn spec_json_rename_list(path: Seq<char>, new_name: Seq<char>) -> Seq<u8> {
    encode_utf8("[{\"newname\":"@) + spec_json_string_of(new_name) + encode_utf8(",\"path\":"@)
        + spec_json_string_of(path) + encode_utf8("}]"@)
}

/// Appends the rename-list document to `out`.
pub fn append_json_rename_list(out: &mut Vec<u8>, path: &str, new_name: &str)
    ensures
        final(out)@ == old(out)@ + spec_json_rename_list(path@, new_name@),
{
    append_str_bytes(out, "[{\"newname\":");
    append_json_string(out, new_name);
    append_str_bytes(out, ",\"path\":");
    append_json_string(out, path);
    append_str_bytes(out, "}]");
    proof {
        assert(final(out)@ =~= old(out)@ + spec_json_rename_list(path@, new_name@));
    }
}

} // verus!
