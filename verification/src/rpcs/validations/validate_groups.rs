//! Rules for group and membership payloads, and the derivation of a group's
//! shortname.

use vstd::prelude::*;
use vstd::string::*;
use crate::marshaling::id_marshaling::{db_id, db_opt_id, opt_text, to_db_id_or_err, to_db_opt_id_or_err};
use crate::permissions::{permission_set_verdict, validate_permissions};
use crate::protos::{Group, Membership, Moderation, Visibility};
use crate::rpcs::validations::validate_strings::{
    invalid,
    invalid_argument,
    length_verdict,
    validate_length,
    validate_max_length,
};
use crate::rpcs::validations::laws::lemma_filter_of_passing;
use crate::rpcs::validations::OperationType;
use crate::status::{Field, Reason, Status};

verus! {

/// Whether the pattern engine counts `c` as a word character: a member of
/// its Unicode-aware class `\w`.
pub uninterp spec fn is_word_char(c: char) -> bool;

/// The word characters of a text, in order.
pub open spec fn word_chars(text: Seq<char>) -> Seq<char> {
    text.filter(|c: char| is_word_char(c))
}

/// An ASCII character.
pub open spec fn is_ascii_char(c: char) -> bool {
    (c as int) < 128
}

/// An ASCII letter, a decimal digit or `_`.
pub open spec fn is_ascii_word_char(c: char) -> bool {
    ('a' <= c && c <= 'z') || ('A' <= c && c <= 'Z') || ('0' <= c && c <= '9') || c == '_'
}

/// Every character of the text is an ASCII character.
pub open spec fn ascii_text(text: Seq<char>) -> bool {
    forall|i: int| 0 <= i < text.len() ==> is_ascii_char(#[trigger] text[i])
}

/// The ASCII letters, digits and underscores of a text, in order.
pub open spec fn ascii_word_chars(text: Seq<char>) -> Seq<char> {
    text.filter(|c: char| is_ascii_word_char(c))
}

/// Of a text of ASCII characters, the word characters are the letters, the
/// digits and the underscores.
pub open spec fn ascii_agreement(text: Seq<char>) -> bool {
    ascii_text(text) ==> word_chars(text) == ascii_word_chars(text)
}

/// Runs `regex::Regex::replace_all` with the pattern `[^\w]` and the empty
/// replacement. The pattern matches exactly one character outside the word
/// class, and every match is cut out, so what is left are the characters of
/// `text` that the engine counts as word characters, in their order. Which
/// characters those are is the engine's own table and is only named here,
/// but for one fact: among the ASCII characters the table holds the letters,
/// the digits and `_` and nothing else, so the ASCII characters of the result
/// are the ASCII letters, digits and underscores of `text`.
#[verifier::external_body]
fn strip_non_word(text: &str) -> (r: String)
    ensures
        r@ == text@.filter(|c: char| is_word_char(c)),
        r@.filter(|c: char| is_ascii_char(c)) == text@.filter(|c: char| is_ascii_word_char(c)),
{
    let re = regex::Regex::new(r"[^\w]").unwrap();
    re.replace_all(text, "").as_ref().to_string()
}

/// What passes a filter has every property that all of the sequence has.
proof fn lemma_filter_keeps_property<A>(s: Seq<A>, pred: spec_fn(A) -> bool, q: spec_fn(A) -> bool)
    requires
        forall|i: int| 0 <= i < s.len() ==> q(#[trigger] s[i]),
    ensures
        forall|i: int| 0 <= i < s.filter(pred).len() ==> q(#[trigger] s.filter(pred)[i]),
    decreases s.len(),
{
    reveal(Seq::filter);
    if s.len() > 0 {
        let rest = s.drop_last().filter(pred);
        assert forall|i: int| 0 <= i < s.drop_last().len() implies q(
            #[trigger] s.drop_last()[i],
        ) by {
            assert(s.drop_last()[i] == s[i]);
        }
        lemma_filter_keeps_property(s.drop_last(), pred, q);
        assert(q(s[s.len() - 1]));
        assert forall|i: int| 0 <= i < s.filter(pred).len() implies q(
            #[trigger] s.filter(pred)[i],
        ) by {
            if i < rest.len() {
                assert(s.filter(pred)[i] == rest[i]);
            } else {
                assert(s.filter(pred)[i] == s.last());
            }
        }
    }
}

/// The word characters of a text.
fn word_characters(text: &str) -> (r: String)
    ensures
        r@ == word_chars(text@),
        ascii_agreement(text@),
{
    let r = strip_non_word(text);
    proof {
        if ascii_text(text@) {
            let ascii = |c: char| is_ascii_char(c);
            lemma_filter_keeps_property(text@, |c: char| is_word_char(c), ascii);
            lemma_filter_of_passing(r@, ascii);
        }
    }
    r
}

/// The shortname that is stored for a group: the word characters of the
/// declared shortname, or, where there are none, those of the name.
pub open spec fn derived_shortname(shortname: Seq<char>, name: Seq<char>) -> Seq<char> {
    if word_chars(shortname).len() == 0 {
        word_chars(name)
    } else {
        word_chars(shortname)
    }
}

/// Chooses between the two candidates for a shortname, each already
/// reduced to its word characters: the one from the declared shortname,
/// unless it is empty.
pub fn choose_shortname(stripped_shortname: String, stripped_name: String) -> (r: String)
    ensures
        r@ == if stripped_shortname@.len() == 0 {
            stripped_name@
        } else {
            stripped_shortname@
        },
{
    if stripped_shortname.as_str().unicode_len() == 0 {
        stripped_name
    } else {
        stripped_shortname
    }
}

/// Derives the shortname that is stored for a group. Where the declared
/// shortname or the name is a text of ASCII characters, its word characters
/// are known to be its letters, digits and underscores.
pub fn derive_shortname(group: &Group) -> (r: String)
    ensures
        r@ == derived_shortname(group.shortname@, group.name@),
        ascii_agreement(group.shortname@),
        ascii_agreement(group.name@),
{
    choose_shortname(
        word_characters(group.shortname.as_str()),
        word_characters(group.name.as_str()),
    )
}

/// The verdict on a declared visibility: it must name a visibility other
/// than the sentinel.
pub open spec fn visibility_verdict(raw: i32) -> Result<(), Status> {
    match Visibility::of_number(raw as int) {
        None => Err(invalid(Reason::InvalidVisibility)),
        Some(Visibility::Unknown) => Err(invalid(Reason::InvalidVisibility)),
        Some(_) => Ok(()),
    }
}

pub fn validate_visibility(raw: i32) -> (r: Result<(), Status>)
    ensures
        r == visibility_verdict(raw),
{
    match Visibility::from_i32(raw) {
        None => Err(invalid_argument(Reason::InvalidVisibility)),
        Some(Visibility::Unknown) => Err(invalid_argument(Reason::InvalidVisibility)),
        Some(_) => Ok(()),
    }
}

/// The verdict on a moderation that a payload may only leave open: it must
/// name `Unmoderated` or `Pending`.
pub open spec fn open_moderation_verdict(raw: i32, reason: Reason) -> Result<(), Status> {
    match Moderation::of_number(raw as int) {
        Some(m) => if m.open_state() {
            Ok(())
        } else {
            Err(invalid(reason))
        },
        None => Err(invalid(reason)),
    }
}

pub fn validate_open_moderation(raw: i32, reason: Reason) -> (r: Result<(), Status>)
    ensures
        r == open_moderation_verdict(raw, reason),
{
    match Moderation::from_i32(raw) {
        Some(m) => if m.is_open() {
            Ok(())
        } else {
            Err(invalid_argument(reason))
        },
        None => Err(invalid_argument(reason)),
    }
}

/// The verdict on a group payload: the first rule it breaks, in this order.
pub open spec fn group_verdict(group: Group) -> Result<(), Status> {
    if length_verdict(group.name@.len(), Field::Name, 1, 128) is Err {
        length_verdict(group.name@.len(), Field::Name, 1, 128)
    } else if length_verdict(group.description@.len(), Field::Description, 0, 10000) is Err {
        length_verdict(group.description@.len(), Field::Description, 0, 10000)
    } else if db_opt_id(opt_text(group.avatar_media_id), Field::AvatarMediaId) is Err {
        Err(invalid(Reason::InvalidId(Field::AvatarMediaId)))
    } else if visibility_verdict(group.visibility) is Err {
        visibility_verdict(group.visibility)
    } else if permission_set_verdict(group.default_membership_permissions@) is Err {
        permission_set_verdict(group.default_membership_permissions@)
    } else if open_moderation_verdict(
        group.default_membership_moderation,
        Reason::InvalidDefaultMembershipModeration,
    ) is Err {
        Err(invalid(Reason::InvalidDefaultMembershipModeration))
    } else if open_moderation_verdict(
        group.default_post_moderation,
        Reason::InvalidDefaultPostModeration,
    ) is Err {
        Err(invalid(Reason::InvalidDefaultPostModeration))
    } else if open_moderation_verdict(
        group.default_event_moderation,
        Reason::InvalidDefaultEventModeration,
    ) is Err {
        Err(invalid(Reason::InvalidDefaultEventModeration))
    } else if derived_shortname(group.shortname@, group.name@).len() == 0 {
        Err(invalid(Reason::BlankShortname))
    } else {
        Ok(())
    }
}

/// Validates a group payload. Where the verdict turns on the derived
/// shortname, the word characters of an ASCII shortname or name are known to
/// be its letters, digits and underscores.
pub fn validate_group(group: &Group) -> (r: Result<(), Status>)
    ensures
        r == group_verdict(*group),
        r is Ok || r == Err::<(), Status>(invalid(Reason::BlankShortname)) ==> ascii_agreement(
            group.shortname@,
        ) && ascii_agreement(group.name@),
{
    validate_length(group.name.as_str(), Field::Name, 1, 128)?;
    validate_length(group.description.as_str(), Field::Description, 0, 10000)?;
    match to_db_opt_id_or_err(&group.avatar_media_id, Field::AvatarMediaId) {
        Err(e) => {
            return Err(e);
        },
        Ok(_) => {},
    }
    validate_visibility(group.visibility)?;
    validate_permissions(&group.default_membership_permissions)?;
    validate_open_moderation(
        group.default_membership_moderation,
        Reason::InvalidDefaultMembershipModeration,
    )?;
    validate_open_moderation(group.default_post_moderation, Reason::InvalidDefaultPostModeration)?;
    validate_open_moderation(
        group.default_event_moderation,
        Reason::InvalidDefaultEventModeration,
    )?;
    if derive_shortname(group).as_str().unicode_len() == 0 {
        return Err(invalid_argument(Reason::BlankShortname));
    }
    Ok(())
}

/// The verdict on a membership payload. Joining and leaving depend on the
/// two identifiers alone; an update also checks the permission set and both
/// moderation states.
pub open spec fn membership_verdict(membership: Membership, operation_type: OperationType) -> Result<
    (),
    Status,
> {
    if db_id(membership.user_id@) is None {
        Err(invalid(Reason::InvalidId(Field::UserId)))
    } else if db_id(membership.group_id@) is None {
        Err(invalid(Reason::InvalidId(Field::GroupId)))
    } else if operation_type != OperationType::Update {
        Ok(())
    } else if permission_set_verdict(membership.permissions@) is Err {
        permission_set_verdict(membership.permissions@)
    } else if open_moderation_verdict(
        membership.group_moderation,
        Reason::InvalidGroupModeration,
    ) is Err {
        Err(invalid(Reason::InvalidGroupModeration))
    } else if open_moderation_verdict(
        membership.user_moderation,
        Reason::InvalidUserModeration,
    ) is Err {
        Err(invalid(Reason::InvalidUserModeration))
    } else {
        Ok(())
    }
}

pub fn validate_membership(membership: &Membership, operation_type: OperationType) -> (r: Result<
    (),
    Status,
>)
    ensures
        r == membership_verdict(*membership, operation_type),
{
    match to_db_id_or_err(membership.user_id.as_str(), Field::UserId) {
        Err(e) => {
            return Err(e);
        },
        Ok(_) => {},
    }
    match to_db_id_or_err(membership.group_id.as_str(), Field::GroupId) {
        Err(e) => {
            return Err(e);
        },
        Ok(_) => {},
    }
    match operation_type {
        OperationType::Delete | OperationType::Create => {
            return Ok(());
        },
        OperationType::Update => {},
    }
    validate_permissions(&membership.permissions)?;
    validate_open_moderation(membership.group_moderation, Reason::InvalidGroupModeration)?;
    validate_open_moderation(membership.user_moderation, Reason::InvalidUserModeration)?;
    Ok(())
}

} // verus!
