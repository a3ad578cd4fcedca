//! Verification: the form a member is shown, and what becomes of what they submit.

use vstd::prelude::*;
use vstd::string::*;

use crate::commands::interaction::ModalField;
use crate::commands::interaction::ModalRow;
use crate::commands::interaction::ModalSubmitData;
use crate::commands::response::text_view;
use crate::data::parsed;
use crate::data::rendered;
use crate::data::EmbarkID;
use crate::data::EmbarkIDSterilizationErrors;
use crate::data::EmbarkIDView;
use crate::data::User;
use crate::text::str_eq;

verus! {

/// A one-line text field of a form.
#[derive(Debug, Clone)]
pub struct TextInput {
    pub custom_id: String,
    pub label: String,
    pub min_length: u16,
    pub max_length: u16,
    pub placeholder: String,
    pub required: bool,
}

/// A form with one text field.
#[derive(Debug, Clone)]
pub struct Modal {
    pub custom_id: String,
    pub title: String,
    pub input: TextInput,
}

/// What is done with one submitted identifier.
pub enum Submission {
    /// Nothing: the submission did not come from a community member.
    NoMember,
    /// The invoker is told, privately, that the text is no identifier.
    Invalid { reply: String },
    /// The text is the identifier; whether it is taken is to be looked up.
    Parsed { discord_user: u64, embark_id: EmbarkID },
}

/// What is done once it is known whether an identifier is taken.
pub enum Claim {
    /// The invoker is told, privately, that the identifier is taken.
    Taken { reply: String },
    /// The invoker is told, privately, what they entered; the link is stored and
    /// the member is marked as verified.
    Accepted { reply: String, user: User },
}

impl Submission {
    /// Whether the submission ends the reading of the form: it does unless the
    /// text was read as an identifier. The values behind it are then left unread.
    pub fn ends_reading(&self) -> (ends: bool)
        ensures
            ends == !(self is Parsed),
    {
        match self {
            Submission::Parsed { .. } => false,
            _ => true,
        }
    }
}

impl Claim {
    /// Whether the claim ends the reading of the form: it does if the identifier
    /// is taken. After an accepted claim the next value is read.
    pub fn ends_reading(&self) -> (ends: bool)
        ensures
            ends == (self is Taken),
    {
        match self {
            Claim::Taken { .. } => true,
            Claim::Accepted { .. } => false,
        }
    }
}

/// The length of the shortest and of the longest identifier: a name of 2 to 16
/// characters, `#`, and four digits.
pub open spec fn id_lengths() -> (int, int) {
    (2int + 5, 16int + 5)
}

/// The values of the fields named like the verification form among the first `n`
/// fields of a row, in order.
pub open spec fn values_in_row(fields: Seq<ModalField>, n: int) -> Seq<Option<Seq<char>>>
    decreases n,
{
    if n <= 0 {
        Seq::empty()
    } else if fields[n - 1].custom_id@ == "embark_verification"@ {
        values_in_row(fields, n - 1).push(text_view(fields[n - 1].value))
    } else {
        values_in_row(fields, n - 1)
    }
}

/// The values of the fields named like the verification form in the first `n`
/// rows, row after row.
pub open spec fn values_in_rows(rows: Seq<ModalRow>, n: int) -> Seq<Option<Seq<char>>>
    decreases n,
{
    if n <= 0 {
        Seq::empty()
    } else {
        values_in_rows(rows, n - 1) + values_in_row(
            rows[n - 1].components@,
            rows[n - 1].components@.len() as int,
        )
    }
}

/// The identifiers that a submitted form holds: if it is the verification form,
/// the value of each of its fields that is named like the form; else none.
pub open spec fn submitted(modal: ModalSubmitData) -> Seq<Option<Seq<char>>> {
    if modal.custom_id@ == "embark_verification"@ {
        values_in_rows(modal.components@, modal.components@.len() as int)
    } else {
        Seq::empty()
    }
}

/// The values of a list of texts that may be absent.
pub open spec fn values_view(values: Seq<Option<String>>) -> Seq<Option<Seq<char>>> {
    Seq::new(values.len(), |i: int| text_view(values[i]))
}

/// Whether `modal` is the form in which a member enters their identifier: one
/// required field that takes a text as long as an identifier can be.
pub open spec fn is_verification_form(modal: Modal) -> bool {
    &&& modal.custom_id@ == "embark_verification"@
    &&& modal.title@ == "Provide Your EmbarkID"@
    &&& modal.input.custom_id@ == "embark_verification"@
    &&& modal.input.label@ == "EMBARKID"@
    &&& modal.input.placeholder@ == "name#1234"@
    &&& modal.input.required
    &&& (modal.input.min_length as int, modal.input.max_length as int) == id_lengths()
}

/// The form in which a member enters their identifier.
pub fn verification_modal() -> (modal: Modal)
    ensures
        is_verification_form(modal),
{
    let extra_length: u16 = 5;
    Modal {
        custom_id: String::from_str("embark_verification"),
        title: String::from_str("Provide Your EmbarkID"),
        input: TextInput {
            custom_id: String::from_str("embark_verification"),
            label: String::from_str("EMBARKID"),
            min_length: 2 + extra_length,
            max_length: 16 + extra_length,
            placeholder: String::from_str("name#1234"),
            required: true,
        },
    }
}

/// Decides what a used message component leads to: the verification form for the
/// button `verify`, nothing for any other component.
pub fn component_used(custom_id: &str) -> (modal: Option<Modal>)
    ensures
        modal is Some <==> custom_id@ == "verify"@,
        modal matches Some(modal) ==> is_verification_form(modal),
{
    if str_eq(custom_id, "verify") {
        Some(verification_modal())
    } else {
        None
    }
}

/// Lists the identifiers that a submitted form holds, in the order of the form.
pub fn submitted_values(modal: &ModalSubmitData) -> (values: Vec<Option<String>>)
    ensures
        values_view(values@) == submitted(*modal),
{
    let mut values: Vec<Option<String>> = Vec::new();
    if !str_eq(modal.custom_id.as_str(), "embark_verification") {
        assert(values_view(values@) =~= submitted(*modal));
        return values;
    }
    let mut r: usize = 0;
    assert(values_view(values@) =~= values_in_rows(modal.components@, 0));
    while r < modal.components.len()
        invariant
            r <= modal.components@.len(),
            values_view(values@) == values_in_rows(modal.components@, r as int),
        decreases modal.components@.len() - r,
    {
        let row = &modal.components[r];
        let ghost before = values_view(values@);
        let mut c: usize = 0;
        assert(values_view(values@) =~= before + values_in_row(row.components@, 0));
        while c < row.components.len()
            invariant
                c <= row.components@.len(),
                values_view(values@) == before + values_in_row(row.components@, c as int),
            decreases row.components@.len() - c,
        {
            let field = &row.components[c];
            let ghost was = values@;
            if str_eq(field.custom_id.as_str(), "embark_verification") {
                let value = match &field.value {
                    Some(text) => Some(text.clone()),
                    None => None,
                };
                values.push(value);
                assert(values_view(values@) =~= values_view(was).push(text_view(field.value)));
                assert(values_view(values@) =~= before + values_in_row(
                    row.components@,
                    c as int + 1,
                ));
            }
            c += 1;
        }
        r += 1;
    }
    values
}

/// Decides what is done with one submitted identifier. Without a member nothing is
/// done. A value that is absent or is no identifier is answered with
/// `Invalid EmbarkID`. Any other value is the identifier it reads as.
pub fn read_submission(member_user_id: Option<u64>, value: Option<&str>) -> (submission: Submission)
    ensures
        match submission {
            Submission::NoMember => member_user_id is None,
            Submission::Invalid { reply } => {
                &&& member_user_id is Some
                &&& reply@ == "Invalid EmbarkID"@
                &&& match value {
                    Some(text) => parsed(text@) is Err,
                    None => true,
                }
            },
            Submission::Parsed { discord_user, embark_id } => {
                &&& member_user_id == Some(discord_user)
                &&& value matches Some(text)
                &&& parsed(text@) == Ok::<EmbarkIDView, EmbarkIDSterilizationErrors>(embark_id@)
            },
        },
{
    let discord_user = match member_user_id {
        Some(user) => user,
        None => {
            return Submission::NoMember;
        },
    };
    let text = match value {
        Some(text) => text,
        None => {
            return Submission::Invalid { reply: String::from_str("Invalid EmbarkID") };
        },
    };
    match EmbarkID::new(text) {
        Ok(embark_id) => Submission::Parsed { discord_user, embark_id },
        Err(_) => Submission::Invalid { reply: String::from_str("Invalid EmbarkID") },
    }
}

/// Decides what is done with an identifier once it is known whether another
/// account holds it.
pub fn claim(discord_user: u64, embark_id: EmbarkID, taken: bool) -> (claim: Claim)
    ensures
        match claim {
            Claim::Taken { reply } => taken && reply@
                == "Someone has already claimed this EmbarkID"@,
            Claim::Accepted { reply, user } => {
                &&& !taken
                &&& reply@ == "You entered: "@ + rendered(embark_id@)
                &&& user.discord_user == discord_user
                &&& user.embark_id@ == embark_id@
            },
        },
{
    if taken {
        Claim::Taken { reply: String::from_str("Someone has already claimed this EmbarkID") }
    } else {
        let reply = String::from_str("You entered: ").concat(embark_id.to_string().as_str());
        Claim::Accepted { reply, user: User { discord_user, embark_id } }
    }
}

} // verus!
