//! The wire-facing data model: protocol unit fields, parsed commands,
//! responses, and the command parser.
//!
//! A protocol unit is an ordered sequence of fields, each a short string
//! (simple), a byte blob (bulk), or a null marker.  The parser maps one
//! unit to a typed command: `GET <key>` and `SET <key> <value>` are the
//! only supported shapes; anything else is unsupported and is reported
//! to the client as an error response, never as a dropped connection.

use vstd::prelude::*;
use vstd::utf8::{valid_utf8, decode_utf8, encode_utf8};
use vstd::string::StrSliceExecFns;
use vstd::slice::slice_to_vec;

verus! {

/// One field of a protocol unit.
pub enum Field {
    /// A short string.
    Simple(String),
    /// A byte blob.
    Bulk(Vec<u8>),
    /// The null marker.
    Null,
}

/// The mathematical model of a `Field`.
pub enum FieldV {
    Simple(Seq<char>),
    Bulk(Seq<u8>),
    Null,
}

impl View for Field {
    type V = FieldV;

    open spec fn view(&self) -> FieldV {
        match self {
            Field::Simple(s) => FieldV::Simple(s@),
            Field::Bulk(b) => FieldV::Bulk(b@),
            Field::Null => FieldV::Null,
        }
    }
}

/// The models of the fields of a unit, in order.
pub open spec fn views_of(unit: Seq<Field>) -> Seq<FieldV> {
    unit.map_values(|f: Field| f@)
}

/// A parsed client request.
pub enum Command {
    /// Look a key up.
    Get { key: String },
    /// Bind a key to a value (the wire verb `SET`).
    Put { key: String, value: Vec<u8> },
    /// Any unit of an unsupported shape; carries the raw unit for diagnostics.
    Unknown { raw: Vec<Field> },
}

/// The mathematical model of a `Command`.
pub enum CommandV {
    Get { key: Seq<char> },
    Put { key: Seq<char>, value: Seq<u8> },
    Unknown { raw: Seq<FieldV> },
}

impl View for Command {
    type V = CommandV;

    open spec fn view(&self) -> CommandV {
        match self {
            Command::Get { key } => CommandV::Get { key: key@ },
            Command::Put { key, value } => CommandV::Put { key: key@, value: value@ },
            Command::Unknown { raw } => CommandV::Unknown { raw: views_of(raw@) },
        }
    }
}

/// The reply to one request.
pub enum Response {
    /// A short acknowledgment, such as `OK`.
    Simple(String),
    /// A stored value.
    Bulk(Vec<u8>),
    /// The marker for an absent key.
    Null,
    /// A per-request failure report; the connection stays open.
    Error(String),
}

/// The mathematical model of a `Response`.
pub enum ResponseV {
    Simple(Seq<char>),
    Bulk(Seq<u8>),
    Null,
    Error(Seq<char>),
}

impl View for Response {
    type V = ResponseV;

    open spec fn view(&self) -> ResponseV {
        match self {
            Response::Simple(s) => ResponseV::Simple(s@),
            Response::Bulk(b) => ResponseV::Bulk(b@),
            Response::Null => ResponseV::Null,
            Response::Error(s) => ResponseV::Error(s@),
        }
    }
}

/// The parser's failure report: the unit is well formed but its shape is
/// not a supported command.  It is request-fatal only.
pub enum ParseError {
    Unsupported { raw: Vec<Field> },
}

/// The text a field carries: the characters of a simple field, or the
/// decoded characters of a bulk field that holds valid UTF-8.
pub open spec fn text_of(f: FieldV) -> Option<Seq<char>> {
    match f {
        FieldV::Simple(s) => Option::Some(s),
        FieldV::Bulk(b) => if valid_utf8(b) {
            Option::Some(decode_utf8(b))
        } else {
            Option::None
        },
        FieldV::Null => Option::None,
    }
}

/// The bytes a field carries: the UTF-8 bytes of a simple field, or the
/// blob of a bulk field.
pub open spec fn bytes_of(f: FieldV) -> Option<Seq<u8>> {
    match f {
        FieldV::Simple(s) => Option::Some(encode_utf8(s)),
        FieldV::Bulk(b) => Option::Some(b),
        FieldV::Null => Option::None,
    }
}

/// Case-insensitive equality of one character with an ASCII letter,
/// given in both cases.
pub open spec fn char_eq_nocase(c: char, lower: char, upper: char) -> bool {
    c == lower || c == upper
}

/// The text equals `get`, ASCII case ignored.
pub open spec fn is_get_verb(t: Seq<char>) -> bool {
    &&& t.len() == 3
    &&& char_eq_nocase(t[0], 'g', 'G')
    &&& char_eq_nocase(t[1], 'e', 'E')
    &&& char_eq_nocase(t[2], 't', 'T')
}

/// The text equals `set`, ASCII case ignored.
pub open spec fn is_set_verb(t: Seq<char>) -> bool {
    &&& t.len() == 3
    &&& char_eq_nocase(t[0], 's', 'S')
    &&& char_eq_nocase(t[1], 'e', 'E')
    &&& char_eq_nocase(t[2], 't', 'T')
}

/// The command a protocol unit denotes.
///
/// A unit of two fields whose first field reads `get` (case ignored) and
/// whose second field carries text is a `Get`; a unit of three fields whose
/// first field reads `set`, whose second carries text and whose third
/// carries bytes is a `Set`; every other unit is `Unknown`.
pub open spec fn parsed_command(u: Seq<FieldV>) -> CommandV {
    if u.len() == 2 {
        match (text_of(u[0]), text_of(u[1])) {
            (Option::Some(t), Option::Some(k)) => if is_get_verb(t) {
                CommandV::Get { key: k }
            } else {
                CommandV::Unknown { raw: u }
            },
            _ => CommandV::Unknown { raw: u },
        }
    } else if u.len() == 3 {
        match (text_of(u[0]), text_of(u[1]), bytes_of(u[2])) {
            (Option::Some(t), Option::Some(k), Option::Some(v)) => if is_set_verb(t) {
                CommandV::Put { key: k, value: v }
            } else {
                CommandV::Unknown { raw: u }
            },
            _ => CommandV::Unknown { raw: u },
        }
    } else {
        CommandV::Unknown { raw: u }
    }
}

/// Relies on `String::from_utf8`: it returns the string holding exactly
/// the given bytes when they are valid UTF-8, and fails otherwise.
#[verifier::external_body]
fn utf8_to_string(bytes: &Vec<u8>) -> (r: Option<String>)
    ensures
        r is Some <==> valid_utf8(bytes@),
        r matches Option::Some(s) ==> encode_utf8(s@) == bytes@,
{
    match String::from_utf8(bytes.clone()) {
        Ok(s) => Some(s),
        Err(_) => None,
    }
}

/// The text a field carries, as an owned string, or nothing where the
/// field carries none (a null marker, or a blob that is not UTF-8).
pub fn field_text(f: &Field) -> (r: Option<String>)
    ensures
        match text_of(f@) {
            Option::Some(t) => r matches Option::Some(s) && s@ == t,
            Option::None => r is None,
        },
{
    match f {
        Field::Simple(s) => Option::Some(s.clone()),
        Field::Bulk(b) => {
            let r = utf8_to_string(b);
            proof {
                if r is Some {
                    vstd::utf8::encode_utf8_decode_utf8(r.unwrap()@);
                }
            }
            r
        },
        Field::Null => Option::None,
    }
}

/// The bytes a field carries, as an owned vector, or nothing for a null
/// marker.
pub fn field_bytes(f: &Field) -> (r: Option<Vec<u8>>)
    ensures
        match bytes_of(f@) {
            Option::Some(bs) => r matches Option::Some(v) && v@ == bs,
            Option::None => r is None,
        },
{
    match f {
        Field::Simple(s) => Option::Some(s.as_str().as_bytes_vec()),
        Field::Bulk(b) => Option::Some(slice_to_vec(b.as_slice())),
        Field::Null => Option::None,
    }
}

/// Whether the text reads `get`, ASCII case ignored.
pub fn is_get(s: &str) -> (r: bool)
    ensures
        r == is_get_verb(s@),
{
    if s.unicode_len() != 3 {
        false
    } else {
        let c0 = s.get_char(0);
        let c1 = s.get_char(1);
        let c2 = s.get_char(2);
        (c0 == 'g' || c0 == 'G') && (c1 == 'e' || c1 == 'E') && (c2 == 't' || c2 == 'T')
    }
}

/// Whether the text reads `set`, ASCII case ignored.
pub fn is_set(s: &str) -> (r: bool)
    ensures
        r == is_set_verb(s@),
{
    if s.unicode_len() != 3 {
        false
    } else {
        let c0 = s.get_char(0);
        let c1 = s.get_char(1);
        let c2 = s.get_char(2);
        (c0 == 's' || c0 == 'S') && (c1 == 'e' || c1 == 'E') && (c2 == 't' || c2 == 'T')
    }
}

/// Maps one decoded protocol unit to a typed command.
///
/// Succeeds exactly on the two supported shapes, `GET <key>` and
/// `SET <key> <value>`; any other unit is unsupported, and the error
/// hands the raw unit back for diagnostics.
pub fn parse(unit: Vec<Field>) -> (r: Result<Command, ParseError>)
    ensures
        r matches Result::Ok(cmd) ==> cmd@ == parsed_command(views_of(unit@)),
        r is Ok <==> !(parsed_command(views_of(unit@)) is Unknown),
        r matches Result::Err(ParseError::Unsupported { raw }) ==> raw@ == unit@,
{
    if unit.len() == 2 {
        let verb = field_text(&unit[0]);
        let key = field_text(&unit[1]);
        if let (Option::Some(t), Option::Some(k)) = (verb, key) {
            if is_get(t.as_str()) {
                return Result::Ok(Command::Get { key: k });
            }
        }
        Result::Err(ParseError::Unsupported { raw: unit })
    } else if unit.len() == 3 {
        let verb = field_text(&unit[0]);
        let key = field_text(&unit[1]);
        let value = field_bytes(&unit[2]);
        if let (Option::Some(t), Option::Some(k), Option::Some(v)) = (verb, key, value) {
            if is_set(t.as_str()) {
                return Result::Ok(Command::Put { key: k, value: v });
            }
        }
        Result::Err(ParseError::Unsupported { raw: unit })
    } else {
        Result::Err(ParseError::Unsupported { raw: unit })
    }
}

/// Maps one decoded protocol unit to a typed command, folding the
/// unsupported shapes into `Command::Unknown`.
pub fn command_of(unit: Vec<Field>) -> (c: Command)
    ensures
        c@ == parsed_command(views_of(unit@)),
{
    match parse(unit) {
        Result::Ok(cmd) => cmd,
        Result::Err(ParseError::Unsupported { raw }) => Command::Unknown { raw },
    }
}

} // verus!
