//! The IBus serialisation structures the engine exchanges with ibus-daemon:
//! `IBusText`, its attribute list, the engine description and the component
//! that registers the engine, and the reading of the text out of a received
//! `IBusText` value.
use vstd::prelude::*;
use crate::text::{char_len, decimal, owned, push_str};

verus! {

/// `IBUS_ATTR_TYPE_NONE`: an attribute that adds no visible decoration.
pub const IBUS_ATTR_TYPE_NONE: u32 = 0;
/// `IBUS_ATTR_UNDERLINE_SINGLE`, the value carried by the placeholder attribute.
pub const IBUS_ATTR_UNDERLINE_SINGLE: u32 = 1;
/// Field of an `IBusText` `(sa{sv}sv)` structure that holds the string.
pub const IBUS_TEXT_STRING_FIELD: usize = 2;
/// Deepest variant nesting read around an `IBusText`.
pub const MAX_VARIANT_DEPTH: usize = 8;

/// One `IBusAttribute` `(sa{sv}uuuu)`: type, value and the character span.
#[derive(Clone, Copy, Debug, PartialEq, Eq)]
pub struct IbusAttribute {
    pub attr_type: u32,
    pub value: u32,
    pub start_index: u32,
    pub end_index: u32,
}

/// An `IBusText` `(sa{sv}sv)`: the string and its `IBusAttrList`.
#[derive(Clone, Debug)]
pub struct IbusText {
    pub text: String,
    pub attributes: Vec<IbusAttribute>,
}

/// The attribute list that lets Chromium-based clients render preedit inline
/// without decoration: one `NONE` attribute spanning `[0, char_len)`.
pub open spec fn placeholder_attrs(char_len: u32) -> Seq<IbusAttribute> {
    seq![IbusAttribute {
        attr_type: IBUS_ATTR_TYPE_NONE,
        value: IBUS_ATTR_UNDERLINE_SINGLE,
        start_index: 0,
        end_index: char_len,
    }]
}

/// An attribute list with a single `NONE` attribute spanning `[0, char_len)`.
pub fn ibus_attr_list_value(char_len: u32) -> (v: Vec<IbusAttribute>)
    ensures
        v@ == placeholder_attrs(char_len),
{
    let mut v: Vec<IbusAttribute> = Vec::new();
    v.push(IbusAttribute {
        attr_type: IBUS_ATTR_TYPE_NONE,
        value: IBUS_ATTR_UNDERLINE_SINGLE,
        start_index: 0,
        end_index: char_len,
    });
    v
}

/// An attribute list with no attributes.
pub fn ibus_attr_list_empty() -> (v: Vec<IbusAttribute>)
    ensures
        v@.len() == 0,
{
    Vec::new()
}

/// An `IBusText` for `text`.  With `with_preedit_placeholder_attrs` its list
/// holds the placeholder attribute over the whole string (its length in
/// characters, taken modulo 2^32); otherwise the list is empty.
pub fn ibus_text_value(text: &str, with_preedit_placeholder_attrs: bool) -> (t: IbusText)
    ensures
        t.text@ == text@,
        with_preedit_placeholder_attrs ==> t.attributes@ == placeholder_attrs(text@.len() as u32),
        !with_preedit_placeholder_attrs ==> t.attributes@.len() == 0,
{
    let attributes = if with_preedit_placeholder_attrs {
        let n = char_len(text);
        ibus_attr_list_value(#[verifier::truncate] (n as u32))
    } else {
        ibus_attr_list_empty()
    };
    IbusText { text: owned(text), attributes }
}

/// The `IBusText` a `CommitText` signal carries: no attributes.
pub fn ibus_text_owned(text: &str) -> (t: IbusText)
    ensures
        t.text@ == text@,
        t.attributes@.len() == 0,
{
    ibus_text_value(text, false)
}

/// The `IBusText` an `UpdatePreeditText` signal carries: the placeholder
/// attribute over the whole string.
pub fn ibus_preedit_text_owned(text: &str) -> (t: IbusText)
    ensures
        t.text@ == text@,
        t.attributes@ == placeholder_attrs(text@.len() as u32),
{
    ibus_text_value(text, true)
}

/// What the installation says of the engine: the strings of its description
/// that do not depend on the engine's name.
#[derive(Clone, Debug)]
pub struct EngineMetadata {
    pub longname: String,
    pub description: String,
    pub language: String,
    pub license: String,
    pub icon: String,
    pub rank: u32,
    pub setup: String,
}

/// An `IBusEngineDesc` `(sa{sv}sssssssuuuuuussssss)`, field by field.
#[derive(Clone, Debug)]
pub struct IbusEngineDesc {
    pub name: String,
    pub longname: String,
    pub description: String,
    pub language: String,
    pub license: String,
    pub author: String,
    pub icon: String,
    pub layout: String,
    pub rank: u32,
    pub hotkeys: String,
    pub keymap: String,
    pub symbol: String,
    pub setup: String,
    pub layout_variant: String,
    pub layout_option: String,
    pub version: String,
    pub textdomain: String,
}

/// An `IBusComponent` `(sa{sv}ssssssssavav)` with its engines.
#[derive(Clone, Debug)]
pub struct IbusComponent {
    pub name: String,
    pub description: String,
    pub version: String,
    pub license: String,
    pub author: String,
    pub homepage: String,
    pub command_line: String,
    pub textdomain: String,
    pub observed_paths: Vec<String>,
    pub engines: Vec<IbusEngineDesc>,
}

/// The description of engine `name` as `meta` gives it: US layout
/// (`"default"`), no author, hotkeys, keymap, symbol, layout variant or
/// option, version or text domain.
pub open spec fn engine_desc_matches(d: IbusEngineDesc, name: Seq<char>, meta: EngineMetadata) -> bool {
    &&& d.name@ == name
    &&& d.longname@ == meta.longname@
    &&& d.description@ == meta.description@
    &&& d.language@ == meta.language@
    &&& d.license@ == meta.license@
    &&& d.author@.len() == 0
    &&& d.icon@ == meta.icon@
    &&& d.layout@ == seq!['d', 'e', 'f', 'a', 'u', 'l', 't']
    &&& d.rank == meta.rank
    &&& d.hotkeys@.len() == 0
    &&& d.keymap@.len() == 0
    &&& d.symbol@.len() == 0
    &&& d.setup@ == meta.setup@
    &&& d.layout_variant@.len() == 0
    &&& d.layout_option@.len() == 0
    &&& d.version@.len() == 0
    &&& d.textdomain@.len() == 0
}

/// The description of the engine called `engine_name`.
pub fn ibus_engine_desc_value(engine_name: &str, meta: &EngineMetadata) -> (d: IbusEngineDesc)
    ensures
        engine_desc_matches(d, engine_name@, *meta),
{
    let layout = owned("default");
    proof {
        reveal_strlit("default");
        assert(layout@ =~= seq!['d', 'e', 'f', 'a', 'u', 'l', 't']);
    }
    IbusEngineDesc {
        name: owned(engine_name),
        longname: owned(meta.longname.as_str()),
        description: owned(meta.description.as_str()),
        language: owned(meta.language.as_str()),
        license: owned(meta.license.as_str()),
        author: String::new(),
        icon: owned(meta.icon.as_str()),
        layout,
        rank: meta.rank,
        hotkeys: String::new(),
        keymap: String::new(),
        symbol: String::new(),
        setup: owned(meta.setup.as_str()),
        layout_variant: String::new(),
        layout_option: String::new(),
        version: String::new(),
        textdomain: String::new(),
    }
}

/// The bus name prefix of an IBus component.
pub open spec fn component_prefix() -> Seq<char> {
    seq!['o', 'r', 'g', '.', 'f', 'r', 'e', 'e', 'd', 'e', 's', 'k', 't', 'o', 'p', '.', 'I', 'B', 'u', 's', '.']
}

/// The component that registers the one engine `engine_name`: named
/// `org.freedesktop.IBus.<engine_name>`, every other string empty (the engine
/// is already running, so there is no command line), no observed paths.
pub fn ibus_component_value(engine_name: &str, meta: &EngineMetadata) -> (c: IbusComponent)
    ensures
        c.name@ == component_prefix() + engine_name@,
        c.description@.len() == 0,
        c.version@.len() == 0,
        c.license@.len() == 0,
        c.author@.len() == 0,
        c.homepage@.len() == 0,
        c.command_line@.len() == 0,
        c.textdomain@.len() == 0,
        c.observed_paths@.len() == 0,
        c.engines@.len() == 1,
        engine_desc_matches(c.engines@[0], engine_name@, *meta),
{
    let mut name = owned("org.freedesktop.IBus.");
    proof {
        reveal_strlit("org.freedesktop.IBus.");
    }
    push_str(&mut name, engine_name);
    let mut engines: Vec<IbusEngineDesc> = Vec::new();
    engines.push(ibus_engine_desc_value(engine_name, meta));
    IbusComponent {
        name,
        description: String::new(),
        version: String::new(),
        license: String::new(),
        author: String::new(),
        homepage: String::new(),
        command_line: String::new(),
        textdomain: String::new(),
        observed_paths: Vec::new(),
        engines,
    }
}

/// A field of a received structure, as far as reading an `IBusText` looks
/// at it.
#[derive(Clone, Debug)]
pub enum WireField {
    Str(String),
    Dict,
    Other,
}

/// A received D-Bus value, as far as reading an `IBusText` looks at it.  The
/// `debug` strings are the value's printed form, quoted in error messages.
#[derive(Debug)]
pub enum WireValue {
    Structure { fields: Vec<WireField>, debug: String },
    Variant(Box<WireValue>),
    Other { debug: String },
}

/// Errors of the IBus wire format.
#[derive(Clone, Debug, PartialEq, Eq)]
pub enum IbusError {
    MalformedSurroundingText(String),
}

pub open spec fn depth_exceeded_message() -> Seq<char> {
    seq!['v', 'a', 'r', 'i', 'a', 'n', 't', ' ', 'n', 'e', 's', 't', 'i', 'n', 'g', ' ', 'd', 'e', 'p',
        't', 'h', ' ', 'e', 'x', 'c', 'e', 'e', 'd', 'e', 'd']
}

pub open spec fn not_a_string_message() -> Seq<char> {
    seq!['t', 'e', 'x', 't', ' ', 'f', 'i', 'e', 'l', 'd', ' ', 'i', 's', ' ', 'n', 'o', 't', ' ', 'a',
        ' ', 's', 't', 'r', 'i', 'n', 'g']
}

/// `expected (sa{sv}sv) IBusText, got structure with <n> fields: <debug>`.
pub open spec fn bad_shape_message(n: nat, debug: Seq<char>) -> Seq<char> {
    seq!['e', 'x', 'p', 'e', 'c', 't', 'e', 'd', ' ', '(', 's', 'a', '{', 's', 'v', '}', 's', 'v', ')',
        ' ', 'I', 'B', 'u', 's', 'T', 'e', 'x', 't', ',', ' ', 'g', 'o', 't', ' ', 's', 't', 'r', 'u',
        'c', 't', 'u', 'r', 'e', ' ', 'w', 'i', 't', 'h', ' '] + crate::text::spec_decimal(n) + seq![
        ' ', 'f', 'i', 'e', 'l', 'd', 's', ':', ' '] + debug
}

/// `expected IBusText structure, got <debug>`.
pub open spec fn not_a_structure_message(debug: Seq<char>) -> Seq<char> {
    seq!['e', 'x', 'p', 'e', 'c', 't', 'e', 'd', ' ', 'I', 'B', 'u', 's', 'T', 'e', 'x', 't', ' ', 's',
        't', 'r', 'u', 'c', 't', 'u', 'r', 'e', ',', ' ', 'g', 'o', 't', ' '] + debug
}

/// Whether the fields have the `IBusText` shape: at least three, a string
/// first and a dictionary second.
pub open spec fn text_shape(fields: Seq<WireField>) -> bool {
    &&& fields.len() > IBUS_TEXT_STRING_FIELD
    &&& fields[0] is Str
    &&& fields[1] is Dict
}

/// The string of an `IBusText` found in `v` under `depth` variants, or the
/// message of the error: variants are unwrapped up to a depth of 8.
pub open spec fn spec_extract(v: WireValue, depth: nat) -> Result<Seq<char>, Seq<char>>
    decreases v,
{
    if depth > MAX_VARIANT_DEPTH {
        Err(depth_exceeded_message())
    } else {
        match v {
            WireValue::Structure { fields, debug } => {
                if !text_shape(fields@) {
                    Err(bad_shape_message(fields@.len(), debug@))
                } else {
                    match fields@[2] {
                        WireField::Str(s) => Ok(s@),
                        _ => Err(not_a_string_message()),
                    }
                }
            },
            WireValue::Variant(inner) => spec_extract(*inner, depth + 1),
            WireValue::Other { debug } => Err(not_a_structure_message(debug@)),
        }
    }
}

/// What `spec_extract` gives, as the library's result.
pub open spec fn extract_matches(r: Result<String, IbusError>, e: Result<Seq<char>, Seq<char>>) -> bool {
    match e {
        Ok(s) => r matches Ok(t) && t@ == s,
        Err(m) => r matches Err(IbusError::MalformedSurroundingText(t)) && t@ == m,
    }
}

fn message(m: &str) -> (e: IbusError)
    ensures
        e matches IbusError::MalformedSurroundingText(t) && t@ == m@,
{
    IbusError::MalformedSurroundingText(owned(m))
}

/// The string of the `IBusText` in `val`, found under `depth` variants.
pub fn extract_ibus_string_val(val: &WireValue, depth: usize) -> (r: Result<String, IbusError>)
    ensures
        extract_matches(r, spec_extract(*val, depth as nat)),
    decreases *val,
{
    if depth > MAX_VARIANT_DEPTH {
        proof {
            reveal_strlit("variant nesting depth exceeded");
            assert("variant nesting depth exceeded"@ =~= depth_exceeded_message());
        }
        return Err(message("variant nesting depth exceeded"));
    }
    match val {
        WireValue::Structure { fields, debug } => {
            let valid_shape = fields.len() > IBUS_TEXT_STRING_FIELD
                && (match &fields[0] { WireField::Str(_) => true, _ => false })
                && (match &fields[1] { WireField::Dict => true, _ => false });
            if !valid_shape {
                let mut m = owned("expected (sa{sv}sv) IBusText, got structure with ");
                push_str(&mut m, &decimal(fields.len() as u64));
                push_str(&mut m, " fields: ");
                push_str(&mut m, debug.as_str());
                proof {
                    reveal_strlit("expected (sa{sv}sv) IBusText, got structure with ");
                    reveal_strlit(" fields: ");
                    assert(m@ =~= bad_shape_message(fields@.len(), debug@));
                }
                return Err(IbusError::MalformedSurroundingText(m));
            }
            match &fields[IBUS_TEXT_STRING_FIELD] {
                WireField::Str(s) => Ok(owned(s.as_str())),
                _ => {
                    proof {
                        reveal_strlit("text field is not a string");
                        assert("text field is not a string"@ =~= not_a_string_message());
                    }
                    Err(message("text field is not a string"))
                },
            }
        },
        WireValue::Variant(inner) => {
            let inner_ref: &WireValue = inner;
            extract_ibus_string_val(inner_ref, depth + 1)
        },
        WireValue::Other { debug } => {
            let mut m = owned("expected IBusText structure, got ");
            push_str(&mut m, debug.as_str());
            proof {
                reveal_strlit("expected IBusText structure, got ");
                assert(m@ =~= not_a_structure_message(debug@));
            }
            Err(IbusError::MalformedSurroundingText(m))
        },
    }
}

/// The string of the `IBusText` in `val`.
pub fn extract_ibus_string(val: &WireValue) -> (r: Result<String, IbusError>)
    ensures
        extract_matches(r, spec_extract(*val, 0)),
{
    extract_ibus_string_val(val, 0)
}

} // verus!
