//! Structural encoding and decoding of turns.
//!
//! A turn is written to the wire without any variant tag; the decoder
//! infers the variant purely from which fields are present, in a fixed
//! priority order: a `tool_calls` field wins, then `tool_call_id`, then a
//! list-valued `content`, then a string-valued `content`.

use vstd::prelude::*;

use crate::conversation::{
    parse_role, role_str, ContentEntry, ContentEntryData, ContentEntryDataV, ContentEntryV,
    ContentTurn, ContentTurnV, ConversationRole, FunctionCall, FunctionCallV, ImageUrl, ImageUrlV,
    ToolCall, ToolCallV, Turn, TurnType, TurnTypeV, TurnV,
};
use crate::error::AdapterError;
use crate::strutil::str_eq;
use crate::wire::{obj_get, obj_has, wire_fields_view, wire_seq_view, wire_view, WireV, WireValue};

verus! {

// ---------------------------------------------------------------------
// Facts about the wire-value model
// ---------------------------------------------------------------------

/// The model of a wire-value list has the same length as the list and
/// holds the model of each element.
pub proof fn lemma_wire_seq_view_props(items: Seq<WireValue>)
    ensures
        wire_seq_view(items).len() == items.len(),
        forall|i: int|
            0 <= i < items.len() ==> #[trigger] wire_seq_view(items)[i] == wire_view(items[i]),
    decreases items.len(),
{
    if items.len() > 0 {
        lemma_wire_seq_view_props(items.drop_first());
    }
}

/// The model of a field list has the same length as the list and holds
/// the model of each field.
pub proof fn lemma_wire_fields_view_props(fields: Seq<(String, WireValue)>)
    ensures
        wire_fields_view(fields).len() == fields.len(),
        forall|i: int|
            0 <= i < fields.len() ==> #[trigger] wire_fields_view(fields)[i] == (
                fields[i].0@,
                wire_view(fields[i].1),
            ),
    decreases fields.len(),
{
    if fields.len() > 0 {
        lemma_wire_fields_view_props(fields.drop_first());
    }
}

/// If the first binding of `key` is at index `i`, `obj_get` returns it.
pub proof fn lemma_obj_get_at(fs: Seq<(Seq<char>, WireV)>, key: Seq<char>, i: int)
    requires
        0 <= i < fs.len(),
        forall|k: int| 0 <= k < i ==> fs[k].0 != key,
        fs[i].0 == key,
    ensures
        obj_get(fs, key) == Some(fs[i].1),
    decreases i,
{
    if i > 0 {
        lemma_obj_get_at(fs.drop_first(), key, i - 1);
    }
}

/// If no field binds `key`, `obj_get` finds nothing.
pub proof fn lemma_obj_get_absent(fs: Seq<(Seq<char>, WireV)>, key: Seq<char>)
    requires
        forall|k: int| 0 <= k < fs.len() ==> fs[k].0 != key,
    ensures
        obj_get(fs, key) is None,
    decreases fs.len(),
{
    if fs.len() > 0 {
        lemma_obj_get_absent(fs.drop_first(), key);
    }
}

// ---------------------------------------------------------------------
// The encoding, as a mathematical function
// ---------------------------------------------------------------------

/// The `content` field of the wire object, present only when the turn
/// carries text content.
pub open spec fn spec_opt_content_fields(c: Option<Seq<char>>) -> Seq<(Seq<char>, WireV)> {
    match c {
        None => Seq::empty(),
        Some(s) => seq![("content"@, WireV::Str(s))],
    }
}

/// The wire object of an image address: the `detail` field is fully
/// elided when absent.
pub open spec fn spec_encode_image(img: ImageUrlV) -> WireV {
    WireV::Obj(
        seq![("url"@, WireV::Str(img.url))] + match img.detail {
            None => Seq::empty(),
            Some(d) => seq![("detail"@, WireV::Str(d))],
        },
    )
}

/// The wire object of one content entry. The `type` field is written from
/// the payload variant and is informational only.
pub open spec fn spec_encode_entry(e: ContentEntryV) -> WireV {
    match e.data {
        ContentEntryDataV::Text { text } => WireV::Obj(
            seq![("type"@, WireV::Str("text"@)), ("text"@, WireV::Str(text))],
        ),
        ContentEntryDataV::Image { image_url } => WireV::Obj(
            seq![("type"@, WireV::Str("image_url"@)), ("image_url"@, spec_encode_image(image_url))],
        ),
    }
}

/// The wire object of one tool invocation.
pub open spec fn spec_encode_call(c: ToolCallV) -> WireV {
    WireV::Obj(
        seq![
            ("id"@, WireV::Str(c.id)),
            ("type"@, WireV::Str(c.call_type)),
            (
                "function"@,
                WireV::Obj(
                    seq![
                        ("name"@, WireV::Str(c.function.name)),
                        ("arguments"@, WireV::Str(c.function.arguments)),
                    ],
                ),
            ),
        ],
    )
}

/// The wire object of a whole turn. No variant tag is ever written.
pub open spec fn spec_encode_turn(t: TurnTypeV) -> WireV {
    match t {
        TurnTypeV::Basic(b) => WireV::Obj(
            seq![("role"@, WireV::Str(role_str(b.role))), ("content"@, WireV::Str(b.content))],
        ),
        TurnTypeV::Content(ct) => WireV::Obj(
            seq![
                ("role"@, WireV::Str(role_str(ct.role))),
                ("content"@, WireV::Arr(ct.content.map_values(|e: ContentEntryV| spec_encode_entry(e)))),
            ],
        ),
        TurnTypeV::ToolOutput { role, content, tool_call_id } => WireV::Obj(
            seq![("role"@, WireV::Str(role_str(role)))] + spec_opt_content_fields(content)
                + seq![("tool_call_id"@, WireV::Str(tool_call_id))],
        ),
        TurnTypeV::ToolCalls { role, content, tool_calls } => WireV::Obj(
            seq![("role"@, WireV::Str(role_str(role)))] + spec_opt_content_fields(content)
                + seq![
                ("tool_calls"@, WireV::Arr(tool_calls.map_values(|c: ToolCallV| spec_encode_call(c)))),
            ],
        ),
    }
}

// ---------------------------------------------------------------------
// The decoding, as a mathematical function
// ---------------------------------------------------------------------

/// What decoding a wire value yields: a turn, or one of the two decode
/// failures.
pub enum TurnDecode {
    Decoded(TurnTypeV),
    /// The value matched none of the four structural shapes.
    Ambiguous,
    /// The value matched a shape but a required sub-field is invalid.
    Malformed,
}

/// The role named by the object's `role` field, if that field is a valid
/// role string.
pub open spec fn spec_decode_role(fs: Seq<(Seq<char>, WireV)>) -> Option<ConversationRole> {
    match obj_get(fs, "role"@) {
        Some(WireV::Str(s)) => parse_role(s),
        _ => None,
    }
}

/// The optional text content of the object: absent is `None`, a string is
/// `Some`, anything else is invalid.
pub open spec fn spec_decode_opt_content(fs: Seq<(Seq<char>, WireV)>) -> Option<
    Option<Seq<char>>,
> {
    match obj_get(fs, "content"@) {
        None => Some(None),
        Some(WireV::Str(s)) => Some(Some(s)),
        Some(_) => None,
    }
}

/// The image address held by a wire value, if it is a valid image object.
pub open spec fn spec_decode_image(v: WireV) -> Option<ImageUrlV> {
    match v {
        WireV::Obj(fs) => match obj_get(fs, "url"@) {
            Some(WireV::Str(u)) => match obj_get(fs, "detail"@) {
                None => Some(ImageUrlV { url: u, detail: None }),
                Some(WireV::Str(d)) => Some(ImageUrlV { url: u, detail: Some(d) }),
                Some(_) => None,
            },
            _ => None,
        },
        _ => None,
    }
}

/// The content entry held by a wire value. The variant is inferred from
/// the presence of `text` or `image_url`; the `type` field is ignored and
/// the entry's informational type string is reconstructed from the
/// variant.
pub open spec fn spec_decode_entry(v: WireV) -> Option<ContentEntryV> {
    match v {
        WireV::Obj(fs) => if obj_has(fs, "text"@) {
            match obj_get(fs, "text"@) {
                Some(WireV::Str(t)) => Some(
                    ContentEntryV {
                        entry_type: "text"@,
                        data: ContentEntryDataV::Text { text: t },
                    },
                ),
                _ => None,
            }
        } else if obj_has(fs, "image_url"@) {
            match obj_get(fs, "image_url"@) {
                Some(img) => match spec_decode_image(img) {
                    Some(i) => Some(
                        ContentEntryV {
                            entry_type: "image_url"@,
                            data: ContentEntryDataV::Image { image_url: i },
                        },
                    ),
                    None => None,
                },
                None => None,
            }
        } else {
            None
        },
        _ => None,
    }
}

/// All content entries of a list, or nothing if any entry is invalid.
pub open spec fn spec_decode_entries(vs: Seq<WireV>) -> Option<Seq<ContentEntryV>>
    decreases vs.len(),
{
    if vs.len() == 0 {
        Some(Seq::empty())
    } else {
        match spec_decode_entry(vs[0]) {
            None => None,
            Some(e) => match spec_decode_entries(vs.drop_first()) {
                None => None,
                Some(rest) => Some(seq![e] + rest),
            },
        }
    }
}

/// The tool invocation held by a wire value, if it is a valid call object.
pub open spec fn spec_decode_call(v: WireV) -> Option<ToolCallV> {
    match v {
        WireV::Obj(fs) => match (obj_get(fs, "id"@), obj_get(fs, "type"@), obj_get(
            fs,
            "function"@,
        )) {
            (Some(WireV::Str(id)), Some(WireV::Str(ct)), Some(WireV::Obj(ffs))) => match (obj_get(
                ffs,
                "name"@,
            ), obj_get(ffs, "arguments"@)) {
                (Some(WireV::Str(n)), Some(WireV::Str(a))) => Some(
                    ToolCallV {
                        id,
                        call_type: ct,
                        function: FunctionCallV { name: n, arguments: a },
                    },
                ),
                _ => None,
            },
            _ => None,
        },
        _ => None,
    }
}

/// All tool invocations of a list, or nothing if any is invalid.
pub open spec fn spec_decode_calls(vs: Seq<WireV>) -> Option<Seq<ToolCallV>>
    decreases vs.len(),
{
    if vs.len() == 0 {
        Some(Seq::empty())
    } else {
        match spec_decode_call(vs[0]) {
            None => None,
            Some(c) => match spec_decode_calls(vs.drop_first()) {
                None => None,
                Some(rest) => Some(seq![c] + rest),
            },
        }
    }
}

/// Decoding of a whole turn: the four structural predicates are tried in
/// the fixed priority order `tool_calls`, `tool_call_id`, list content,
/// string content.
pub open spec fn spec_decode_turn(v: WireV) -> TurnDecode {
    match v {
        WireV::Obj(fs) => if obj_has(fs, "tool_calls"@) {
            match (spec_decode_role(fs), spec_decode_opt_content(fs), obj_get(fs, "tool_calls"@)) {
                (Some(role), Some(content), Some(WireV::Arr(vs))) => match spec_decode_calls(vs) {
                    Some(calls) => TurnDecode::Decoded(
                        TurnTypeV::ToolCalls { role, content, tool_calls: calls },
                    ),
                    None => TurnDecode::Malformed,
                },
                _ => TurnDecode::Malformed,
            }
        } else if obj_has(fs, "tool_call_id"@) {
            match (spec_decode_role(fs), spec_decode_opt_content(fs), obj_get(
                fs,
                "tool_call_id"@,
            )) {
                (Some(role), Some(content), Some(WireV::Str(id))) => TurnDecode::Decoded(
                    TurnTypeV::ToolOutput { role, content, tool_call_id: id },
                ),
                _ => TurnDecode::Malformed,
            }
        } else if obj_get(fs, "content"@) matches Some(WireV::Arr(_)) {
            match (spec_decode_role(fs), obj_get(fs, "content"@)) {
                (Some(role), Some(WireV::Arr(vs))) => match spec_decode_entries(vs) {
                    Some(entries) => TurnDecode::Decoded(
                        TurnTypeV::Content(ContentTurnV { role, content: entries }),
                    ),
                    None => TurnDecode::Malformed,
                },
                _ => TurnDecode::Malformed,
            }
        } else if obj_get(fs, "content"@) matches Some(WireV::Str(_)) {
            match (spec_decode_role(fs), obj_get(fs, "content"@)) {
                (Some(role), Some(WireV::Str(s))) => TurnDecode::Decoded(
                    TurnTypeV::Basic(TurnV { role, content: s }),
                ),
                _ => TurnDecode::Malformed,
            }
        } else {
            TurnDecode::Ambiguous
        },
        _ => TurnDecode::Ambiguous,
    }
}

// ---------------------------------------------------------------------
// Well-formedness and the round-trip law
// ---------------------------------------------------------------------

/// A content entry is well formed when its informational type string
/// agrees with its payload variant, as every encoder writes it.
pub open spec fn wf_entry(e: ContentEntryV) -> bool {
    match e.data {
        ContentEntryDataV::Text { .. } => e.entry_type == "text"@,
        ContentEntryDataV::Image { .. } => e.entry_type == "image_url"@,
    }
}

/// A turn is well formed when each of its content entries is.
pub open spec fn wf_turn(t: TurnTypeV) -> bool {
    match t {
        TurnTypeV::Content(ct) => forall|i: int|
            0 <= i < ct.content.len() ==> wf_entry(#[trigger] ct.content[i]),
        _ => true,
    }
}

// ---------------------------------------------------------------------
// The round-trip law
// ---------------------------------------------------------------------

/// The wire field names used by the codec are pairwise distinct.
proof fn lemma_key_facts()
    ensures
        "role"@ != "content"@,
        "role"@ != "tool_calls"@,
        "role"@ != "tool_call_id"@,
        "content"@ != "tool_calls"@,
        "content"@ != "tool_call_id"@,
        "tool_calls"@ != "tool_call_id"@,
        "type"@ != "text"@,
        "type"@ != "image_url"@,
        "text"@ != "image_url"@,
        "url"@ != "detail"@,
        "id"@ != "type"@,
        "id"@ != "function"@,
        "type"@ != "function"@,
        "name"@ != "arguments"@,
{
    reveal_strlit("role");
    reveal_strlit("content");
    reveal_strlit("tool_calls");
    reveal_strlit("tool_call_id");
    reveal_strlit("type");
    reveal_strlit("text");
    reveal_strlit("image_url");
    reveal_strlit("url");
    reveal_strlit("detail");
    reveal_strlit("id");
    reveal_strlit("function");
    reveal_strlit("name");
    reveal_strlit("arguments");
    assert("role"@.len() == 4);
    assert("content"@.len() == 7);
    assert("tool_calls"@.len() == 10);
    assert("tool_call_id"@.len() == 12);
    assert("type"@.len() == 4);
    assert("text"@.len() == 4);
    assert("image_url"@.len() == 9);
    assert("url"@.len() == 3);
    assert("detail"@.len() == 6);
    assert("id"@.len() == 2);
    assert("function"@.len() == 8);
    assert("name"@.len() == 4);
    assert("arguments"@.len() == 9);
    assert("type"@[1] == 'y' && "text"@[1] == 'e');
    assert("name"@[0] == 'n' && "arguments"@[0] == 'a');
}

/// Encoding an image address and decoding the result gives it back.
proof fn lemma_image_round_trip(img: ImageUrlV)
    ensures
        spec_decode_image(spec_encode_image(img)) == Some(img),
{
    lemma_key_facts();
    match img.detail {
        None => {
            let fs = seq![("url"@, WireV::Str(img.url))] + Seq::<(Seq<char>, WireV)>::empty();
            assert(fs.len() == 1);
            lemma_obj_get_at(fs, "url"@, 0);
            lemma_obj_get_absent(fs, "detail"@);
        },
        Some(d) => {
            let fs = seq![("url"@, WireV::Str(img.url))] + seq![("detail"@, WireV::Str(d))];
            assert(fs.len() == 2);
            assert(fs[0] == ("url"@, WireV::Str(img.url)));
            assert(fs[1] == ("detail"@, WireV::Str(d)));
            lemma_obj_get_at(fs, "url"@, 0);
            lemma_obj_get_at(fs, "detail"@, 1);
        },
    }
}

/// Encoding a well-formed content entry and decoding the result gives it
/// back.
proof fn lemma_entry_round_trip(e: ContentEntryV)
    requires
        wf_entry(e),
    ensures
        spec_decode_entry(spec_encode_entry(e)) == Some(e),
{
    lemma_key_facts();
    match e.data {
        ContentEntryDataV::Text { text } => {
            let fs = seq![("type"@, WireV::Str("text"@)), ("text"@, WireV::Str(text))];
            assert(fs.len() == 2);
            lemma_obj_get_at(fs, "text"@, 1);
        },
        ContentEntryDataV::Image { image_url } => {
            let fs = seq![
                ("type"@, WireV::Str("image_url"@)),
                ("image_url"@, spec_encode_image(image_url)),
            ];
            assert(fs.len() == 2);
            lemma_obj_get_absent(fs, "text"@);
            lemma_obj_get_at(fs, "image_url"@, 1);
            lemma_image_round_trip(image_url);
        },
    }
}

/// Encoding a list of well-formed content entries and decoding the result
/// gives the list back.
proof fn lemma_entries_round_trip(es: Seq<ContentEntryV>)
    requires
        forall|i: int| 0 <= i < es.len() ==> wf_entry(#[trigger] es[i]),
    ensures
        spec_decode_entries(es.map_values(|e: ContentEntryV| spec_encode_entry(e))) == Some(es),
    decreases es.len(),
{
    let vs = es.map_values(|e: ContentEntryV| spec_encode_entry(e));
    if es.len() == 0 {
        assert(es =~= Seq::<ContentEntryV>::empty());
    } else {
        lemma_entry_round_trip(es[0]);
        assert(vs.drop_first() =~= es.drop_first().map_values(
            |e: ContentEntryV| spec_encode_entry(e),
        ));
        lemma_entries_round_trip(es.drop_first());
        assert(seq![es[0]] + es.drop_first() =~= es);
    }
}

/// Encoding a tool invocation and decoding the result gives it back.
proof fn lemma_call_round_trip(c: ToolCallV)
    ensures
        spec_decode_call(spec_encode_call(c)) == Some(c),
{
    lemma_key_facts();
    let ffs = seq![
        ("name"@, WireV::Str(c.function.name)),
        ("arguments"@, WireV::Str(c.function.arguments)),
    ];
    let fs = seq![
        ("id"@, WireV::Str(c.id)),
        ("type"@, WireV::Str(c.call_type)),
        ("function"@, WireV::Obj(ffs)),
    ];
    assert(fs.len() == 3);
    lemma_obj_get_at(fs, "id"@, 0);
    lemma_obj_get_at(fs, "type"@, 1);
    lemma_obj_get_at(fs, "function"@, 2);
    lemma_obj_get_at(ffs, "name"@, 0);
    lemma_obj_get_at(ffs, "arguments"@, 1);
}

/// Encoding a list of tool invocations and decoding the result gives the
/// list back.
proof fn lemma_calls_round_trip(cs: Seq<ToolCallV>)
    ensures
        spec_decode_calls(cs.map_values(|c: ToolCallV| spec_encode_call(c))) == Some(cs),
    decreases cs.len(),
{
    let vs = cs.map_values(|c: ToolCallV| spec_encode_call(c));
    if cs.len() == 0 {
        assert(cs =~= Seq::<ToolCallV>::empty());
    } else {
        lemma_call_round_trip(cs[0]);
        assert(vs.drop_first() =~= cs.drop_first().map_values(
            |c: ToolCallV| spec_encode_call(c),
        ));
        lemma_calls_round_trip(cs.drop_first());
        assert(seq![cs[0]] + cs.drop_first() =~= cs);
    }
}

/// The round-trip law: encoding any well-formed turn and decoding the
/// result yields exactly the original turn, for every one of the four
/// shapes.
pub proof fn lemma_turn_round_trip(t: TurnTypeV)
    requires
        wf_turn(t),
    ensures
        spec_decode_turn(spec_encode_turn(t)) == TurnDecode::Decoded(t),
{
    lemma_key_facts();
    match t {
        TurnTypeV::Basic(b) => {
            let fs = seq![
                ("role"@, WireV::Str(role_str(b.role))),
                ("content"@, WireV::Str(b.content)),
            ];
            assert(fs.len() == 2);
            lemma_obj_get_absent(fs, "tool_calls"@);
            lemma_obj_get_absent(fs, "tool_call_id"@);
            lemma_obj_get_at(fs, "role"@, 0);
            lemma_obj_get_at(fs, "content"@, 1);
            crate::conversation::lemma_role_str_parse(b.role);
        },
        TurnTypeV::Content(ct) => {
            let entries = ct.content.map_values(|e: ContentEntryV| spec_encode_entry(e));
            let fs = seq![
                ("role"@, WireV::Str(role_str(ct.role))),
                ("content"@, WireV::Arr(entries)),
            ];
            assert(fs.len() == 2);
            lemma_obj_get_absent(fs, "tool_calls"@);
            lemma_obj_get_absent(fs, "tool_call_id"@);
            lemma_obj_get_at(fs, "role"@, 0);
            lemma_obj_get_at(fs, "content"@, 1);
            crate::conversation::lemma_role_str_parse(ct.role);
            lemma_entries_round_trip(ct.content);
        },
        TurnTypeV::ToolOutput { role, content, tool_call_id } => {
            let fs = seq![("role"@, WireV::Str(role_str(role)))] + spec_opt_content_fields(content)
                + seq![("tool_call_id"@, WireV::Str(tool_call_id))];
            crate::conversation::lemma_role_str_parse(role);
            match content {
                None => {
                    assert(fs.len() == 2);
                    assert(fs[0] == ("role"@, WireV::Str(role_str(role))));
                    assert(fs[1] == ("tool_call_id"@, WireV::Str(tool_call_id)));
                    lemma_obj_get_absent(fs, "tool_calls"@);
                    lemma_obj_get_at(fs, "tool_call_id"@, 1);
                    lemma_obj_get_at(fs, "role"@, 0);
                    lemma_obj_get_absent(fs, "content"@);
                },
                Some(s) => {
                    assert(fs.len() == 3);
                    assert(fs[0] == ("role"@, WireV::Str(role_str(role))));
                    assert(fs[1] == ("content"@, WireV::Str(s)));
                    assert(fs[2] == ("tool_call_id"@, WireV::Str(tool_call_id)));
                    lemma_obj_get_absent(fs, "tool_calls"@);
                    lemma_obj_get_at(fs, "tool_call_id"@, 2);
                    lemma_obj_get_at(fs, "role"@, 0);
                    lemma_obj_get_at(fs, "content"@, 1);
                },
            }
        },
        TurnTypeV::ToolCalls { role, content, tool_calls } => {
            let calls = tool_calls.map_values(|c: ToolCallV| spec_encode_call(c));
            let fs = seq![("role"@, WireV::Str(role_str(role)))] + spec_opt_content_fields(content)
                + seq![("tool_calls"@, WireV::Arr(calls))];
            crate::conversation::lemma_role_str_parse(role);
            lemma_calls_round_trip(tool_calls);
            match content {
                None => {
                    assert(fs.len() == 2);
                    assert(fs[0] == ("role"@, WireV::Str(role_str(role))));
                    assert(fs[1] == ("tool_calls"@, WireV::Arr(calls)));
                    lemma_obj_get_at(fs, "tool_calls"@, 1);
                    lemma_obj_get_at(fs, "role"@, 0);
                    lemma_obj_get_absent(fs, "content"@);
                },
                Some(s) => {
                    assert(fs.len() == 3);
                    assert(fs[0] == ("role"@, WireV::Str(role_str(role))));
                    assert(fs[1] == ("content"@, WireV::Str(s)));
                    assert(fs[2] == ("tool_calls"@, WireV::Arr(calls)));
                    lemma_obj_get_at(fs, "tool_calls"@, 2);
                    lemma_obj_get_at(fs, "role"@, 0);
                    lemma_obj_get_at(fs, "content"@, 1);
                },
            }
        },
    }
}

// ---------------------------------------------------------------------
// The executable encoder
// ---------------------------------------------------------------------

fn encode_image(img: &ImageUrl) -> (r: WireValue)
    ensures
        wire_view(r) == spec_encode_image(img@),
{
    let mut fields: Vec<(String, WireValue)> = Vec::new();
    fields.push(("url".to_owned(), WireValue::Str(img.url.clone())));
    match &img.detail {
        Some(d) => fields.push(("detail".to_owned(), WireValue::Str(d.clone()))),
        None => (),
    }
    let r = WireValue::Obj(fields);
    proof {
        lemma_wire_fields_view_props(r->Obj_0@);
        match img@.detail {
            None => {
                assert(wire_fields_view(r->Obj_0@) =~= seq![("url"@, WireV::Str(img.url@))]
                    + Seq::<(Seq<char>, WireV)>::empty());
            },
            Some(d) => {
                assert(wire_fields_view(r->Obj_0@) =~= seq![("url"@, WireV::Str(img.url@))]
                    + seq![("detail"@, WireV::Str(d))]);
            },
        }
    }
    r
}

fn encode_entry(e: &ContentEntry) -> (r: WireValue)
    ensures
        wire_view(r) == spec_encode_entry(e@),
{
    match &e.data {
        ContentEntryData::Text { text } => {
            let mut fields: Vec<(String, WireValue)> = Vec::new();
            fields.push(("type".to_owned(), WireValue::Str("text".to_owned())));
            fields.push(("text".to_owned(), WireValue::Str(text.clone())));
            let r = WireValue::Obj(fields);
            proof {
                lemma_wire_fields_view_props(r->Obj_0@);
                assert(wire_fields_view(r->Obj_0@) =~= seq![
                    ("type"@, WireV::Str("text"@)),
                    ("text"@, WireV::Str(text@)),
                ]);
            }
            r
        },
        ContentEntryData::Image { image_url } => {
            let img = encode_image(image_url);
            let mut fields: Vec<(String, WireValue)> = Vec::new();
            fields.push(("type".to_owned(), WireValue::Str("image_url".to_owned())));
            fields.push(("image_url".to_owned(), img));
            let r = WireValue::Obj(fields);
            proof {
                lemma_wire_fields_view_props(r->Obj_0@);
                assert(wire_fields_view(r->Obj_0@) =~= seq![
                    ("type"@, WireV::Str("image_url"@)),
                    ("image_url"@, spec_encode_image(image_url@)),
                ]);
            }
            r
        },
    }
}

fn encode_call(c: &ToolCall) -> (r: WireValue)
    ensures
        wire_view(r) == spec_encode_call(c@),
{
    let mut ffields: Vec<(String, WireValue)> = Vec::new();
    ffields.push(("name".to_owned(), WireValue::Str(c.function.name.clone())));
    ffields.push(("arguments".to_owned(), WireValue::Str(c.function.arguments.clone())));
    let f = WireValue::Obj(ffields);
    proof {
        lemma_wire_fields_view_props(f->Obj_0@);
        assert(wire_fields_view(f->Obj_0@) =~= seq![
            ("name"@, WireV::Str(c.function.name@)),
            ("arguments"@, WireV::Str(c.function.arguments@)),
        ]);
    }
    let mut fields: Vec<(String, WireValue)> = Vec::new();
    fields.push(("id".to_owned(), WireValue::Str(c.id.clone())));
    fields.push(("type".to_owned(), WireValue::Str(c.call_type.clone())));
    fields.push(("function".to_owned(), f));
    let r = WireValue::Obj(fields);
    proof {
        lemma_wire_fields_view_props(r->Obj_0@);
        assert(wire_fields_view(r->Obj_0@) =~= spec_encode_call(c@)->Obj_0);
    }
    r
}

/// Encodes one turn as a structural wire value. No variant tag and no
/// absent optional field is ever written.
pub fn encode_turn(t: &TurnType) -> (r: WireValue)
    ensures
        r@ == spec_encode_turn(t@),
{
    match t {
        TurnType::Basic(b) => {
            let mut fields: Vec<(String, WireValue)> = Vec::new();
            fields.push(("role".to_owned(), WireValue::Str(b.role.to_string())));
            fields.push(("content".to_owned(), WireValue::Str(b.content.clone())));
            let r = WireValue::Obj(fields);
            proof {
                lemma_wire_fields_view_props(r->Obj_0@);
                assert(wire_fields_view(r->Obj_0@) =~= spec_encode_turn(t@)->Obj_0);
            }
            r
        },
        TurnType::Content(ct) => {
            let mut items: Vec<WireValue> = Vec::new();
            let mut i: usize = 0;
            while i < ct.content.len()
                invariant
                    i <= ct.content.len(),
                    items@.len() == i,
                    forall|k: int|
                        0 <= k < i ==> wire_view(#[trigger] items@[k]) == spec_encode_entry(
                            ct.content@[k]@,
                        ),
                decreases ct.content.len() - i,
            {
                items.push(encode_entry(&ct.content[i]));
                i += 1;
            }
            let mut fields: Vec<(String, WireValue)> = Vec::new();
            fields.push(("role".to_owned(), WireValue::Str(ct.role.to_string())));
            fields.push(("content".to_owned(), WireValue::Arr(items)));
            let r = WireValue::Obj(fields);
            proof {
                lemma_wire_seq_view_props(fields@[1].1->Arr_0@);
                assert(wire_seq_view(fields@[1].1->Arr_0@) =~= ct@.content.map_values(
                    |e: ContentEntryV| spec_encode_entry(e),
                ));
                lemma_wire_fields_view_props(r->Obj_0@);
                assert(wire_fields_view(r->Obj_0@) =~= spec_encode_turn(t@)->Obj_0);
            }
            r
        },
        TurnType::ToolOutput { role, content, tool_call_id } => {
            let mut fields: Vec<(String, WireValue)> = Vec::new();
            fields.push(("role".to_owned(), WireValue::Str(role.to_string())));
            match content {
                Some(s) => fields.push(("content".to_owned(), WireValue::Str(s.clone()))),
                None => (),
            }
            fields.push(("tool_call_id".to_owned(), WireValue::Str(tool_call_id.clone())));
            let r = WireValue::Obj(fields);
            proof {
                lemma_wire_fields_view_props(r->Obj_0@);
                assert(wire_fields_view(r->Obj_0@) =~= spec_encode_turn(t@)->Obj_0);
            }
            r
        },
        TurnType::ToolCalls { role, content, tool_calls } => {
            let mut items: Vec<WireValue> = Vec::new();
            let mut i: usize = 0;
            while i < tool_calls.len()
                invariant
                    i <= tool_calls.len(),
                    items@.len() == i,
                    forall|k: int|
                        0 <= k < i ==> wire_view(#[trigger] items@[k]) == spec_encode_call(
                            tool_calls@[k]@,
                        ),
                decreases tool_calls.len() - i,
            {
                items.push(encode_call(&tool_calls[i]));
                i += 1;
            }
            let mut fields: Vec<(String, WireValue)> = Vec::new();
            fields.push(("role".to_owned(), WireValue::Str(role.to_string())));
            match content {
                Some(s) => fields.push(("content".to_owned(), WireValue::Str(s.clone()))),
                None => (),
            }
            fields.push(("tool_calls".to_owned(), WireValue::Arr(items)));
            let r = WireValue::Obj(fields);
            proof {
                let ghost n = fields@.len() - 1;
                lemma_wire_seq_view_props(fields@[n].1->Arr_0@);
                assert(wire_seq_view(fields@[n].1->Arr_0@) =~= t@->ToolCalls_tool_calls.map_values(
                    |c: ToolCallV| spec_encode_call(c),
                ));
                lemma_wire_fields_view_props(r->Obj_0@);
                assert(wire_fields_view(r->Obj_0@) =~= spec_encode_turn(t@)->Obj_0);
            }
            r
        },
    }
}

// ---------------------------------------------------------------------
// The executable decoder
// ---------------------------------------------------------------------

/// The first field of the object bound to `key`, if any.
fn obj_get_ref<'a>(fields: &'a Vec<(String, WireValue)>, key: &str) -> (r: Option<
    &'a WireValue,
>)
    ensures
        match r {
            Some(w) => obj_get(wire_fields_view(fields@), key@) == Some(wire_view(*w)),
            None => obj_get(wire_fields_view(fields@), key@) is None,
        },
{
    let mut i: usize = 0;
    while i < fields.len()
        invariant
            i <= fields.len(),
            forall|k: int| 0 <= k < i ==> #[trigger] fields@[k].0@ != key@,
        decreases fields.len() - i,
    {
        if str_eq(fields[i].0.as_str(), key) {
            proof {
                lemma_wire_fields_view_props(fields@);
                lemma_obj_get_at(wire_fields_view(fields@), key@, i as int);
            }
            return Some(&fields[i].1);
        }
        i += 1;
    }
    proof {
        lemma_wire_fields_view_props(fields@);
        lemma_obj_get_absent(wire_fields_view(fields@), key@);
    }
    None
}

/// The role named by the object's `role` field, if valid.
fn decode_role(fields: &Vec<(String, WireValue)>) -> (r: Option<ConversationRole>)
    ensures
        r == spec_decode_role(wire_fields_view(fields@)),
{
    match obj_get_ref(fields, "role") {
        Some(w) => match w {
            WireValue::Str(s) => ConversationRole::from_name(s.as_str()),
            _ => None,
        },
        None => None,
    }
}

/// The optional text content of the object; the outer `None` means the
/// field is present but not a string.
fn decode_opt_content(fields: &Vec<(String, WireValue)>) -> (r: Option<Option<String>>)
    ensures
        spec_decode_opt_content(wire_fields_view(fields@)) == (match r {
            None => None::<Option<Seq<char>>>,
            Some(c) => Some(crate::conversation::opt_str_view(c)),
        }),
{
    match obj_get_ref(fields, "content") {
        None => Some(None),
        Some(w) => match w {
            WireValue::Str(s) => Some(Some(s.clone())),
            _ => None,
        },
    }
}

/// The image address held by a wire value, if it is a valid image object.
fn decode_image(v: &WireValue) -> (r: Option<ImageUrl>)
    ensures
        match r {
            Some(img) => spec_decode_image(wire_view(*v)) == Some(img@),
            None => spec_decode_image(wire_view(*v)) is None,
        },
{
    match v {
        WireValue::Obj(fs) => match obj_get_ref(fs, "url") {
            Some(u) => match u {
                WireValue::Str(url) => match obj_get_ref(fs, "detail") {
                    None => Some(ImageUrl { url: url.clone(), detail: None }),
                    Some(d) => match d {
                        WireValue::Str(detail) => Some(
                            ImageUrl { url: url.clone(), detail: Some(detail.clone()) },
                        ),
                        _ => None,
                    },
                },
                _ => None,
            },
            None => None,
        },
        _ => None,
    }
}

/// The content entry held by a wire value, if valid; the variant is
/// inferred from field presence and the informational type string is
/// reconstructed from it.
fn decode_entry(v: &WireValue) -> (r: Option<ContentEntry>)
    ensures
        match r {
            Some(e) => spec_decode_entry(wire_view(*v)) == Some(e@),
            None => spec_decode_entry(wire_view(*v)) is None,
        },
{
    match v {
        WireValue::Obj(fs) => match obj_get_ref(fs, "text") {
            Some(t) => match t {
                WireValue::Str(text) => Some(
                    ContentEntry {
                        entry_type: "text".to_owned(),
                        data: ContentEntryData::Text { text: text.clone() },
                    },
                ),
                _ => None,
            },
            None => match obj_get_ref(fs, "image_url") {
                Some(iw) => match decode_image(iw) {
                    Some(img) => Some(
                        ContentEntry {
                            entry_type: "image_url".to_owned(),
                            data: ContentEntryData::Image { image_url: img },
                        },
                    ),
                    None => None,
                },
                None => None,
            },
        },
        _ => None,
    }
}

/// The tool invocation held by a wire value, if it is a valid call
/// object.
fn decode_call(v: &WireValue) -> (r: Option<ToolCall>)
    ensures
        match r {
            Some(c) => spec_decode_call(wire_view(*v)) == Some(c@),
            None => spec_decode_call(wire_view(*v)) is None,
        },
{
    match v {
        WireValue::Obj(fs) => {
            let id = match obj_get_ref(fs, "id") {
                Some(w) => match w {
                    WireValue::Str(s) => Some(s.clone()),
                    _ => None,
                },
                None => None,
            };
            let ct = match obj_get_ref(fs, "type") {
                Some(w) => match w {
                    WireValue::Str(s) => Some(s.clone()),
                    _ => None,
                },
                None => None,
            };
            match (id, ct) {
                (Some(id), Some(call_type)) => match obj_get_ref(fs, "function") {
                    Some(f) => match f {
                        WireValue::Obj(ffs) => {
                            let name = match obj_get_ref(ffs, "name") {
                                Some(w) => match w {
                                    WireValue::Str(s) => Some(s.clone()),
                                    _ => None,
                                },
                                None => None,
                            };
                            let args = match obj_get_ref(ffs, "arguments") {
                                Some(w) => match w {
                                    WireValue::Str(s) => Some(s.clone()),
                                    _ => None,
                                },
                                None => None,
                            };
                            match (name, args) {
                                (Some(name), Some(arguments)) => Some(
                                    ToolCall {
                                        id,
                                        call_type,
                                        function: FunctionCall { name, arguments },
                                    },
                                ),
                                _ => None,
                            }
                        },
                        _ => None,
                    },
                    None => None,
                },
                _ => None,
            }
        },
        _ => None,
    }
}

/// If some element of the list is not a valid entry, the list decodes to
/// nothing.
proof fn lemma_decode_entries_fail(vs: Seq<WireV>, k: int)
    requires
        0 <= k < vs.len(),
        spec_decode_entry(vs[k]) is None,
    ensures
        spec_decode_entries(vs) is None,
    decreases vs.len(),
{
    if k > 0 {
        lemma_decode_entries_fail(vs.drop_first(), k - 1);
    }
}

/// If every element decodes, the list decodes to exactly those entries.
proof fn lemma_decode_entries_some(vs: Seq<WireV>, es: Seq<ContentEntryV>)
    requires
        es.len() == vs.len(),
        forall|k: int| 0 <= k < vs.len() ==> spec_decode_entry(#[trigger] vs[k]) == Some(es[k]),
    ensures
        spec_decode_entries(vs) == Some(es),
    decreases vs.len(),
{
    if vs.len() == 0 {
        assert(es =~= Seq::<ContentEntryV>::empty());
    } else {
        lemma_decode_entries_some(vs.drop_first(), es.drop_first());
        assert(seq![es[0]] + es.drop_first() =~= es);
    }
}

/// If some element of the list is not a valid call, the list decodes to
/// nothing.
proof fn lemma_decode_calls_fail(vs: Seq<WireV>, k: int)
    requires
        0 <= k < vs.len(),
        spec_decode_call(vs[k]) is None,
    ensures
        spec_decode_calls(vs) is None,
    decreases vs.len(),
{
    if k > 0 {
        lemma_decode_calls_fail(vs.drop_first(), k - 1);
    }
}

/// If every element decodes, the list decodes to exactly those calls.
proof fn lemma_decode_calls_some(vs: Seq<WireV>, cs: Seq<ToolCallV>)
    requires
        cs.len() == vs.len(),
        forall|k: int| 0 <= k < vs.len() ==> spec_decode_call(#[trigger] vs[k]) == Some(cs[k]),
    ensures
        spec_decode_calls(vs) == Some(cs),
    decreases vs.len(),
{
    if vs.len() == 0 {
        assert(cs =~= Seq::<ToolCallV>::empty());
    } else {
        lemma_decode_calls_some(vs.drop_first(), cs.drop_first());
        assert(seq![cs[0]] + cs.drop_first() =~= cs);
    }
}

/// Decodes a structural wire value into exactly one of the four turn
/// shapes, or reports that the value matched no shape (`AmbiguousTurnShape`)
/// or matched one with an invalid required sub-field (`MalformedTurn`).
#[verifier::loop_isolation(false)]
pub fn decode_turn(v: &WireValue) -> (r: Result<TurnType, AdapterError>)
    ensures
        spec_decode_turn(v@) matches TurnDecode::Decoded(tv) ==> (r matches Ok(tt) && tt@ == tv),
        spec_decode_turn(v@) is Ambiguous ==> (r matches Err(e) && e is AmbiguousTurnShape),
        spec_decode_turn(v@) is Malformed ==> (r matches Err(e) && e is MalformedTurn),
{
    match v {
        WireValue::Obj(fields) => {
            if let Some(tcw) = obj_get_ref(fields, "tool_calls") {
                let role = match decode_role(fields) {
                    Some(role) => role,
                    None => {
                        return Err(AdapterError::MalformedTurn("invalid role".to_owned()));
                    },
                };
                let content = match decode_opt_content(fields) {
                    Some(c) => c,
                    None => {
                        return Err(AdapterError::MalformedTurn("invalid content".to_owned()));
                    },
                };
                match tcw {
                    WireValue::Arr(items) => {
                        let ghost vs = wire_seq_view(items@);
                        proof {
                            lemma_wire_seq_view_props(items@);
                        }
                        let mut calls: Vec<ToolCall> = Vec::new();
                        let mut i: usize = 0;
                        while i < items.len()
                            invariant
                                i <= items.len(),
                                calls@.len() == i,
                                vs == wire_seq_view(items@),
                                vs.len() == items@.len(),
                                forall|k: int|
                                    0 <= k < items@.len() ==> #[trigger] vs[k] == wire_view(
                                        items@[k],
                                    ),
                                forall|k: int|
                                    0 <= k < i ==> spec_decode_call(#[trigger] vs[k]) == Some(
                                        calls@[k]@,
                                    ),
                            decreases items.len() - i,
                        {
                            match decode_call(&items[i]) {
                                Some(c) => calls.push(c),
                                None => {
                                    proof {
                                        lemma_decode_calls_fail(vs, i as int);
                                    }
                                    return Err(
                                        AdapterError::MalformedTurn("invalid tool call".to_owned()),
                                    );
                                },
                            }
                            i += 1;
                        }
                        proof {
                            lemma_decode_calls_some(vs, calls@.map_values(|c: ToolCall| c@));
                        }
                        Ok(TurnType::ToolCalls { role, content, tool_calls: calls })
                    },
                    _ => Err(AdapterError::MalformedTurn("tool_calls is not a list".to_owned())),
                }
            } else if let Some(tid) = obj_get_ref(fields, "tool_call_id") {
                let role = match decode_role(fields) {
                    Some(role) => role,
                    None => {
                        return Err(AdapterError::MalformedTurn("invalid role".to_owned()));
                    },
                };
                let content = match decode_opt_content(fields) {
                    Some(c) => c,
                    None => {
                        return Err(AdapterError::MalformedTurn("invalid content".to_owned()));
                    },
                };
                match tid {
                    WireValue::Str(id) => Ok(
                        TurnType::ToolOutput { role, content, tool_call_id: id.clone() },
                    ),
                    _ => Err(
                        AdapterError::MalformedTurn("tool_call_id is not a string".to_owned()),
                    ),
                }
            } else {
                match obj_get_ref(fields, "content") {
                    Some(cw) => match cw {
                        WireValue::Arr(items) => {
                            let role = match decode_role(fields) {
                                Some(role) => role,
                                None => {
                                    return Err(
                                        AdapterError::MalformedTurn("invalid role".to_owned()),
                                    );
                                },
                            };
                            let ghost vs = wire_seq_view(items@);
                            proof {
                                lemma_wire_seq_view_props(items@);
                            }
                            let mut entries: Vec<ContentEntry> = Vec::new();
                            let mut i: usize = 0;
                            while i < items.len()
                                invariant
                                    i <= items.len(),
                                    entries@.len() == i,
                                    vs == wire_seq_view(items@),
                                    vs.len() == items@.len(),
                                    forall|k: int|
                                        0 <= k < items@.len() ==> #[trigger] vs[k] == wire_view(
                                            items@[k],
                                        ),
                                    forall|k: int|
                                        0 <= k < i ==> spec_decode_entry(#[trigger] vs[k]) == Some(
                                            entries@[k]@,
                                        ),
                                decreases items.len() - i,
                            {
                                match decode_entry(&items[i]) {
                                    Some(e) => entries.push(e),
                                    None => {
                                        proof {
                                            lemma_decode_entries_fail(vs, i as int);
                                        }
                                        return Err(
                                            AdapterError::MalformedTurn(
                                                "invalid content entry".to_owned(),
                                            ),
                                        );
                                    },
                                }
                                i += 1;
                            }
                            proof {
                                lemma_decode_entries_some(
                                    vs,
                                    entries@.map_values(|e: ContentEntry| e@),
                                );
                            }
                            Ok(TurnType::Content(ContentTurn { role, content: entries }))
                        },
                        WireValue::Str(s) => {
                            let role = match decode_role(fields) {
                                Some(role) => role,
                                None => {
                                    return Err(
                                        AdapterError::MalformedTurn("invalid role".to_owned()),
                                    );
                                },
                            };
                            Ok(TurnType::Basic(Turn { role, content: s.clone() }))
                        },
                        _ => Err(AdapterError::AmbiguousTurnShape),
                    },
                    None => Err(AdapterError::AmbiguousTurnShape),
                }
            }
        },
        _ => Err(AdapterError::AmbiguousTurnShape),
    }
}

} // verus!
