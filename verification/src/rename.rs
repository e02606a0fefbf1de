use vstd::prelude::*;

verus! {

use vstd::string::*;

broadcast use vstd::string::group_string_axioms;

/// The characters that `to_snake_case` yields on the given characters.
pub uninterp spec fn snake_case_of(s: Seq<char>) -> Seq<char>;

/// The characters that `to_shouty_snake_case` yields on the given characters.
pub uninterp spec fn shouty_snake_case_of(s: Seq<char>) -> Seq<char>;

/// The characters that `to_upper_camel_case` yields on the given characters.
pub uninterp spec fn upper_camel_case_of(s: Seq<char>) -> Seq<char>;

/// Relies on heck's `ToSnakeCase` for `str`: a pure rewrite of the input into
/// lower-snake-case words; the result depends on the characters alone.
#[verifier::external_body]
pub(crate) fn to_snake_case(s: &str) -> (r: String)
    ensures
        r@ == snake_case_of(s@),
        s@.len() == 0 ==> r@.len() == 0,
{
    heck::ToSnakeCase::to_snake_case(s)
}

/// Relies on heck's `ToShoutySnakeCase` for `str`: a pure rewrite of the input
/// into upper-snake-case words; the result depends on the characters alone.
#[verifier::external_body]
pub(crate) fn to_shouty_snake_case(s: &str) -> (r: String)
    ensures
        r@ == shouty_snake_case_of(s@),
        s@.len() == 0 ==> r@.len() == 0,
{
    heck::ToShoutySnakeCase::to_shouty_snake_case(s)
}

/// Relies on heck's `ToUpperCamelCase` for `str`: a pure rewrite of the input
/// into capitalized words; the result depends on the characters alone.
#[verifier::external_body]
pub(crate) fn to_upper_camel_case(s: &str) -> (r: String)
    ensures
        r@ == upper_camel_case_of(s@),
        s@.len() == 0 ==> r@.len() == 0,
{
    heck::ToUpperCamelCase::to_upper_camel_case(s)
}

/// The case-convention value selecting lower-snake-case renaming.
pub open spec fn snake_case_value() -> Seq<char> {
    "snake_case"@
}

/// The case-convention value selecting upper-screaming-snake-case renaming.
pub open spec fn screaming_snake_case_value() -> Seq<char> {
    "STREAMING_SNAKE_CASE"@
}

/// Whether a case-convention value is one of the recognized spellings.
pub open spec fn rename_case_valid(to_case: Seq<char>) -> bool {
    to_case == snake_case_value() || to_case == screaming_snake_case_value()
}

/// Rewrites an item name under a named case convention; an unrecognized
/// convention value is a compile-time error naming that value.
pub fn rename_item(item: &str, to_case: &str) -> (r: Result<String, crate::errors::CompileError>)
    ensures
        rename_case_valid(to_case@) <==> r is Ok,
        to_case@ == snake_case_value() ==> (r matches Ok(s) && s@ == snake_case_of(item@)),
        to_case@ == screaming_snake_case_value() ==> (r matches Ok(s) && s@ == shouty_snake_case_of(item@)),
        r matches Err(e) ==> e matches crate::errors::CompileError::UnknownRenameCase { value } && value@ == to_case@,
{
    proof {
        reveal_strlit("snake_case");
        reveal_strlit("STREAMING_SNAKE_CASE");
        assert("snake_case"@.len() == 10);
        assert("STREAMING_SNAKE_CASE"@.len() == 20);
    }
    let snake: String = "snake_case".to_owned();
    let screaming: String = "STREAMING_SNAKE_CASE".to_owned();
    let case_owned: String = to_case.to_owned();
    if case_owned == snake {
        Ok(to_snake_case(item))
    } else if case_owned == screaming {
        Ok(to_shouty_snake_case(item))
    } else {
        Err(crate::errors::CompileError::UnknownRenameCase { value: case_owned })
    }
}

/// What `get_proto_field_name` returns: the name with its last character
/// removed when that character is the one to strip.
pub open spec fn proto_field_name_spec(name: Seq<char>, remove_last_char_if: Option<char>) -> Seq<char> {
    match remove_last_char_if {
        Some(c) => if name.len() > 0 && name.last() == c {
            name.drop_last()
        } else {
            name
        },
        None => name,
    }
}

/// Returns a wire field name given an identifier and a rename field attribute.
/// `remove_last_char_if` is used where a trailing special character such as
/// `'_'` must not reach the wire accessor name.
pub fn get_proto_field_name(name: &str, remove_last_char_if: Option<char>) -> (r: String)
    ensures
        r@ == proto_field_name_spec(name@, remove_last_char_if),
{
    let n = name.unicode_len();
    if let Some(c) = remove_last_char_if {
        if n > 0 && name.get_char(n - 1) == c {
            assert(name@.subrange(0, n - 1) =~= name@.drop_last());
            return name.substring_char(0, n - 1).to_owned();
        }
    }
    name.to_owned()
}

} // verus!
