//! Conditional header append: extend an http response builder with a
//! key/value pair only when a value is actually present.
//!
//! The builder itself belongs to the `http` crate and is opaque here; what
//! the contracts speak about is the run of header pairs it has
//! accumulated, its status and version, and whether it still carries no
//! error.

use vstd::prelude::*;

verus! {

/// Declaration of http's response builder, so that it can stand in
/// signatures; its values are opaque here.
#[verifier::external_type_specification]
#[verifier::external_body]
pub struct ExBuilder(http::response::Builder);

/// The header pairs a builder has accumulated, each as the canonical
/// (lower-case) name and the value, in the order its header map iterates
/// them: the values of one name stay together, in append order, at the
/// place the name first went in; names follow first-append order. Of a
/// builder that carries an error nothing is said.
pub uninterp spec fn builder_headers(b: http::response::Builder) -> Seq<(Seq<char>, Seq<char>)>;

/// Whether a builder still carries no error.
pub uninterp spec fn builder_ok(b: http::response::Builder) -> bool;

/// The numeric status code an error-free builder holds.
pub uninterp spec fn builder_status(b: http::response::Builder) -> nat;

/// The protocol version an error-free builder holds, abstractly; the
/// contracts only ever state that it is kept, never which it is.
pub uninterp spec fn builder_version(b: http::response::Builder) -> nat;

/// Whether some held pair already carries this name.
pub open spec fn has_name(hs: Seq<(Seq<char>, Seq<char>)>, name: Seq<char>) -> bool {
    exists|i: int| 0 <= i < hs.len() && hs[i].0 == name
}

/// Where an appended pair lands among the held pairs: right behind the
/// last pair of the same name, or at the end when the name is new — the
/// grouped order in which the builder's header map iterates.
pub open spec fn append_grouped(
    hs: Seq<(Seq<char>, Seq<char>)>,
    name: Seq<char>,
    value: Seq<char>,
) -> Seq<(Seq<char>, Seq<char>)>
    decreases hs.len(),
{
    if !has_name(hs, name) {
        hs.push((name, value))
    } else if hs.last().0 == name {
        hs.push((name, value))
    } else {
        append_grouped(hs.drop_last(), name, value).push(hs.last())
    }
}

/// A character http accepts in a header name: ascii letters and digits
/// and the token punctuation. Upper-case letters are accepted too and
/// come out lower-cased.
pub open spec fn is_name_char(c: char) -> bool {
    ||| ('a' <= c && c <= 'z')
    ||| ('A' <= c && c <= 'Z')
    ||| ('0' <= c && c <= '9')
    ||| (c == '!' || c == '#' || c == '$' || c == '%' || c == '&' || c == '\'')
    ||| (c == '*' || c == '+' || c == '-' || c == '.')
    ||| (c == '^' || c == '_' || c == '`' || c == '|' || c == '~')
}

/// A string http accepts as a header name: nonempty, not over the name
/// length cap, and made of name characters only.
pub open spec fn is_header_name(s: Seq<char>) -> bool {
    &&& 1 <= s.len() <= 65535
    &&& forall|i: int| 0 <= i < s.len() ==> is_name_char(#[trigger] s[i])
}

/// The lower-case form http gives a name character.
pub open spec fn lower_char(c: char) -> char {
    if 'A' <= c && c <= 'Z' {
        ((c as u32) + 32) as char
    } else {
        c
    }
}

/// The canonical form of a header name: every character lower-cased.
pub open spec fn canonical_name(s: Seq<char>) -> Seq<char> {
    s.map_values(|c: char| lower_char(c))
}

/// A character http accepts in a header value: horizontal tab, or
/// anything from space upward except delete.
pub open spec fn is_value_char(c: char) -> bool {
    c == '\t' || (' ' <= c && c != '\u{7f}')
}

/// A string http accepts as a header value: made of value characters
/// only. The empty value is allowed.
pub open spec fn is_header_value(s: Seq<char>) -> bool {
    forall|i: int| 0 <= i < s.len() ==> is_value_char(#[trigger] s[i])
}

/// Relies on http::response::Builder::new: a fresh builder carries no
/// error, holds no header pairs, and starts with status 200.
pub assume_specification[ http::response::Builder::new ]() -> (b: http::response::Builder)
    ensures
        builder_ok(b),
        builder_headers(b) == Seq::<(Seq<char>, Seq<char>)>::empty(),
        builder_status(b) == 200,
;

/// Relies on http::response::Builder::header with a string key and value:
/// a builder already carrying an error is handed back as it came;
/// otherwise the call converts both strings, records the conversion error
/// in the builder when either is invalid, and else appends the pair, with
/// the name lower-cased, behind the last pair of that name, touching
/// neither status nor version. The map refuses an append only when a
/// doubling of its slot table would pass the 32768-slot cap, and at the
/// cap it attempts a doubling only once the held names reach a fifth of
/// the slots (its collision path) or three quarters of them (its load
/// path) — so it never refuses while it holds fewer pairs than a fifth of
/// the cap.
#[verifier::external_body]
fn builder_header(b: http::response::Builder, key: &str, value: &str) -> (r:
    http::response::Builder)
    ensures
        builder_ok(r) ==> builder_ok(b) && is_header_name(key@) && is_header_value(value@),
        builder_ok(r) ==> builder_headers(r) == append_grouped(
            builder_headers(b),
            canonical_name(key@),
            value@,
        ),
        builder_ok(r) ==> builder_status(r) == builder_status(b) && builder_version(r)
            == builder_version(b),
        builder_ok(b) && is_header_name(key@) && is_header_value(value@) && 5 * builder_headers(
            b,
        ).len() < 32768 ==> builder_ok(r),
        !builder_ok(b) ==> r == b,
{
    b.header(key, value)
}

/// A fresh response builder: error-free, without headers, status 200.
pub fn new_builder() -> (b: http::response::Builder)
    ensures
        builder_ok(b),
        builder_headers(b) == Seq::<(Seq<char>, Seq<char>)>::empty(),
        builder_status(b) == 200,
{
    http::response::Builder::new()
}

/// Append `key: value` to the builder when a value is present; hand the
/// builder back untouched when none is. A key or value the builder cannot
/// convert leaves it carrying the conversion error of its own append
/// operation, which its build step reports; status, version and the pairs
/// of other names are never disturbed.
pub fn option_header(builder: http::response::Builder, key: &str, value_opt: Option<&str>) -> (r:
    http::response::Builder)
    ensures
        value_opt is None ==> r == builder,
        !builder_ok(builder) ==> r == builder,
        builder_ok(r) ==> builder_ok(builder),
        value_opt matches Some(value) ==> (builder_ok(r) ==> is_header_name(key@)
            && is_header_value(value@) && builder_headers(r) == append_grouped(
            builder_headers(builder),
            canonical_name(key@),
            value@,
        ) && builder_status(r) == builder_status(builder) && builder_version(r)
            == builder_version(builder)),
        value_opt matches Some(value) ==> (builder_ok(builder) && !(is_header_name(key@)
            && is_header_value(value@)) ==> !builder_ok(r)),
        value_opt matches Some(value) ==> (builder_ok(builder) && is_header_name(key@)
            && is_header_value(value@) && 5 * builder_headers(builder).len() < 32768
            ==> builder_ok(r)),
{
    match value_opt {
        Some(value) => builder_header(builder, key, value),
        None => builder,
    }
}

} // verus!

