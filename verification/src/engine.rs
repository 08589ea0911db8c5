//! The seam with the proxy engine: a static response handed over as the
//! engine's own response header.
//!
//! The engine's header type is opaque here. Two names stand for what it
//! holds, and the two functions that touch it are believed, not proved; each
//! says above its contract what it claims of the engine's code.

use crate::static_site::{StaticResponse, StaticResponseView};
use pingora_http::ResponseHeader;
use vstd::prelude::*;

verus! {

#[verifier::external_type_specification]
#[verifier::external_body]
pub struct ExResponseHeader(pingora_http::ResponseHeader);

/// The fields of a response header: the value of each field, found under the
/// field's name in lower case.
pub uninterp spec fn header_fields(header: ResponseHeader) -> Map<Seq<char>, Seq<char>>;

/// The status code of a response header.
pub uninterp spec fn header_status(header: ResponseHeader) -> u16;

/// The most fields that a response is handed over with.
pub const FIELD_LIMIT: usize = 1024;

/// The characters that a field name is made of: ASCII letters and digits
/// and the marks `` ! # $ % & ' * + - . ^ _ ` | ~ ``.
pub open spec fn is_name_char(c: char) -> bool {
    ||| 'a' <= c <= 'z'
    ||| 'A' <= c <= 'Z'
    ||| '0' <= c <= '9'
    ||| c == '!'
    ||| c == '#'
    ||| c == '$'
    ||| c == '%'
    ||| c == '&'
    ||| c == '\''
    ||| c == '*'
    ||| c == '+'
    ||| c == '-'
    ||| c == '.'
    ||| c == '^'
    ||| c == '_'
    ||| c == '`'
    ||| c == '|'
    ||| c == '~'
}

/// The longest field name that the engine takes.
pub open spec fn name_limit() -> nat {
    65535
}

/// The names that the engine takes for a field: not empty, no longer than
/// the limit, and made of name characters only.
pub open spec fn is_field_name(name: Seq<char>) -> bool {
    &&& 1 <= name.len() <= name_limit()
    &&& forall|i: int| 0 <= i < name.len() ==> is_name_char(#[trigger] name[i])
}

/// The characters that a field value may hold: the tab, and everything from
/// the space on but the delete character.
pub open spec fn is_value_char(c: char) -> bool {
    c == '\t' || (' ' <= c && c != '\x7f')
}

/// The values that the engine takes for a field.
pub open spec fn is_field_value(value: Seq<char>) -> bool {
    forall|i: int| 0 <= i < value.len() ==> is_value_char(#[trigger] value[i])
}

/// The responses that can be handed over: a status code of three digits, no
/// more headers than the limit, and a name and a value that the engine takes
/// in each of them.
pub open spec fn can_hand_over(response: StaticResponseView) -> bool {
    &&& 100 <= response.status <= 999
    &&& response.headers.len() <= FIELD_LIMIT
    &&& forall|i: int|
        0 <= i < response.headers.len() ==> is_field_name((#[trigger] response.headers[i]).0)
            && is_field_value(response.headers[i].1)
}

/// An ASCII capital as its small letter; every other character as it is.
pub open spec fn lower_char(c: char) -> char {
    if 'A' <= c <= 'Z' {
        ((c as u8 + 32) as u8) as char
    } else {
        c
    }
}

/// A field name in lower case, which is how the engine tells names apart.
pub open spec fn lower_case(name: Seq<char>) -> Seq<char> {
    Seq::new(name.len(), |i: int| lower_char(name[i]))
}

/// A header without fields.
pub open spec fn no_fields() -> Map<Seq<char>, Seq<char>> {
    Map::empty()
}

/// The fields that a list of headers leaves when they are set one after the
/// other: a later header replaces an earlier one of the same name, whatever
/// the case of the two names.
pub open spec fn field_map(headers: Seq<(Seq<char>, Seq<char>)>) -> Map<Seq<char>, Seq<char>>
    decreases headers.len(),
{
    if headers.len() == 0 {
        no_fields()
    } else {
        field_map(headers.drop_last()).insert(lower_case(headers.last().0), headers.last().1)
    }
}

/// `ResponseHeader::build` of pingora-http, with the size hint given.
///
/// Claimed: it succeeds exactly for a status code from 100 to 999, and the
/// header it then gives has that status code and no fields.
#[verifier::external_body]
fn new_header(status: u16, size_hint: usize) -> (made: Option<ResponseHeader>)
    ensures
        made is Some <==> 100 <= status <= 999,
        made matches Some(header) ==> header_status(header) == status,
        made matches Some(header) ==> header_fields(header) == no_fields(),
{
    ResponseHeader::build(status, Some(size_hint)).ok()
}

/// `ResponseHeader::insert_header` of pingora-http.
///
/// Claimed: it succeeds exactly where the engine takes the name and the
/// value. The field of that name, in lower case, then has the given value
/// and every other field is as before; where it fails, no field has changed;
/// the status code is as before either way. It is called only on a header
/// with fewer fields than the limit, far below the size at which the
/// engine's header map gives up.
#[verifier::external_body]
fn set_field(header: &mut ResponseHeader, name: &str, value: &str) -> (done: bool)
    requires
        header_fields(*old(header)).dom().finite(),
        header_fields(*old(header)).dom().len() < FIELD_LIMIT,
    ensures
        done <==> (is_field_name(name@) && is_field_value(value@)),
        header_status(*final(header)) == header_status(*old(header)),
        done ==> header_fields(*final(header)) == header_fields(*old(header)).insert(
            lower_case(name@),
            value@,
        ),
        !done ==> header_fields(*final(header)) == header_fields(*old(header)),
{
    header.insert_header(name.to_string(), value).is_ok()
}

/// Hands a static response over as the engine's response header: its status
/// code, and its headers set one after the other.
///
/// `None` where the status code is not from 100 to 999, where there are more
/// headers than the limit, or where the engine refuses a name or a value.
pub fn response_header(response: &StaticResponse) -> (made: Option<ResponseHeader>)
    ensures
        made is Some <==> can_hand_over(response@),
        made matches Some(header) ==> header_status(header) == response.status && header_fields(
            header,
        ) == field_map(response@.headers),
{
    let count: usize = response.headers.len();
    if count > FIELD_LIMIT {
        return None;
    }
    let mut header = match new_header(response.status, count) {
        Some(header) => header,
        None => {
            return None;
        },
    };
    let mut i: usize = 0;
    while i < count
        invariant
            i <= count,
            count == response.headers@.len(),
            count <= FIELD_LIMIT,
            header_status(header) == response.status,
            header_fields(header) == field_map(response@.headers.take(i as int)),
            header_fields(header).dom().finite(),
            header_fields(header).dom().len() <= i,
            forall|j: int|
                0 <= j < i ==> is_field_name((#[trigger] response@.headers[j]).0)
                    && is_field_value(response@.headers[j].1),
        decreases count - i,
    {
        let field = &response.headers[i];
        if !set_field(&mut header, field.name.as_str(), field.value.as_str()) {
            assert(response@.headers[i as int] == (field.name@, field.value@));
            return None;
        }
        proof {
            let so_far = response@.headers.take(i as int + 1);
            assert(so_far.drop_last() =~= response@.headers.take(i as int));
            assert(so_far.last() == response@.headers[i as int]);
        }
        i += 1;
    }
    assert(response@.headers.take(count as int) =~= response@.headers);
    Some(header)
}

} // verus!
