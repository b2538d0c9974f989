use vstd::prelude::*;

verus! {

/// Calls `portpicker::pick_unused_port`, which tries random ports and then
/// ports that the system hands out, and returns one that is free on both TCP
/// and UDP, or `None`. What it returns depends on the machine and on chance,
/// so nothing is stated of it.
#[verifier::external_body]
pub(crate) fn pick_unused_port() -> (r: Option<u16>) {
    portpicker::pick_unused_port()
}

/// Calls `uuid::Uuid::new_v4` and returns the bits of the random id it
/// makes. The id depends on chance, so nothing is stated of it.
#[verifier::external_body]
pub(crate) fn new_random_id() -> (r: u128) {
    uuid::Uuid::new_v4().as_u128()
}

/// The lowercase hexadecimal digit of a value below 16.
pub open spec fn hex_digit(n: int) -> char {
    if n < 10 {
        (48 + n) as char
    } else {
        (87 + n) as char
    }
}

/// The `k`-th of the 32 hexadecimal digits of an id, the most significant
/// first.
pub open spec fn nibble(id: u128, k: int) -> int {
    (id as nat / vstd::arithmetic::power2::pow2((4 * (31 - k)) as nat)) as int % 16
}

/// The text of an id written as a UUID, as `uuid::Uuid` displays it: 32
/// lowercase hexadecimal digits in groups of 8, 4, 4, 4 and 12, joined by
/// hyphens.
pub open spec fn uuid_text(id: u128) -> Seq<char> {
    Seq::new(
        36,
        |i: int|
            if i == 8 || i == 13 || i == 18 || i == 23 {
                '-'
            } else {
                let hyphens = if i < 8 { 0int } else if i < 13 { 1int } else if i < 18 { 2int } else if i < 23 { 3int } else { 4int };
                hex_digit(nibble(id, i - hyphens))
            },
    )
}

/// Calls `uuid::Uuid::from_u128` and the `Display` of `uuid::Uuid`, which
/// writes the id in its hyphenated, lowercase form.
#[verifier::external_body]
pub(crate) fn uuid_to_string(id: u128) -> (r: String)
    ensures
        r@ == uuid_text(id),
{
    uuid::Uuid::from_u128(id).to_string()
}

/// Calls the `Display` of `indradb::ValidationError` on the variant of the
/// same name; the source writes "invalid value", "value too long" and "could
/// not increment the UUID".
#[verifier::external_body]
pub(crate) fn validation_error_to_string(e: crate::errors::ValidationError) -> (r: String)
    ensures
        r@ == crate::errors::validation_error_message(e),
{
    let outside = match e {
        crate::errors::ValidationError::InvalidValue => indradb::ValidationError::InvalidValue,
        crate::errors::ValidationError::ValueTooLong => indradb::ValidationError::ValueTooLong,
        crate::errors::ValidationError::CannotIncrementUuid => indradb::ValidationError::CannotIncrementUuid,
    };
    outside.to_string()
}

/// The number of bytes of a character in UTF-8.
pub open spec fn char_utf8_len(c: char) -> int {
    if (c as u32) < 0x80 {
        1
    } else if (c as u32) < 0x800 {
        2
    } else if (c as u32) < 0x10000 {
        3
    } else {
        4
    }
}

/// The number of bytes of a text in UTF-8.
pub open spec fn utf8_len(s: Seq<char>) -> int
    decreases s.len(),
{
    if s.len() == 0 {
        0
    } else {
        utf8_len(s.drop_last()) + char_utf8_len(s.last())
    }
}

/// What `indradb::Identifier::new` makes of a text: the text itself where it
/// is a valid identifier, or the reason why it is not.
pub uninterp spec fn identifier_result(s: Seq<char>) -> Result<Seq<char>, crate::errors::ValidationError>;

/// Calls `indradb::Identifier::new` and hands back the text of the
/// identifier. The source refuses a text of more than 255 bytes with
/// `ValueTooLong`, else one with a character that is neither alphanumeric
/// nor `-` nor `_` with `InvalidValue`, and otherwise keeps the text as it
/// is. Which characters are alphanumeric is left to the name
/// `identifier_result`.
#[verifier::external_body]
pub(crate) fn new_identifier(s: &String) -> (r: Result<String, crate::errors::ValidationError>)
    ensures
        match r {
            Ok(t) => identifier_result(s@) == Ok::<Seq<char>, crate::errors::ValidationError>(t@),
            Err(e) => identifier_result(s@) == Err::<Seq<char>, crate::errors::ValidationError>(e),
        },
        r matches Ok(t) ==> t@ == s@,
        (r matches Err(crate::errors::ValidationError::ValueTooLong)) == (utf8_len(s@) > 255),
        !(r matches Err(crate::errors::ValidationError::CannotIncrementUuid)),
{
    match indradb::Identifier::new(s.clone()) {
        Ok(id) => Ok(id.into_string()),
        Err(indradb::ValidationError::InvalidValue) => Err(crate::errors::ValidationError::InvalidValue),
        Err(indradb::ValidationError::ValueTooLong) => Err(crate::errors::ValidationError::ValueTooLong),
        Err(indradb::ValidationError::CannotIncrementUuid) => Err(crate::errors::ValidationError::CannotIncrementUuid),
    }
}

} // verus!
