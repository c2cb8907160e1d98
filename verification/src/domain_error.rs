//! The validation failures that a command can return.

use uuid::Uuid;
use vstd::prelude::*;
use vstd::string::StringExecFns;

verus! {

/// Why a command was refused. These are ordinary outcomes for the caller to
/// branch on, and a refused command leaves the encounter as it was.
#[derive(Debug)]
pub enum DomainError {
    /// A discharge of a patient who is not currently admitted.
    PatientDischargedError(Uuid),
    /// A transfer, to the given ward, of a patient who is not currently
    /// admitted.
    PatientTransferredError(Uuid, u32),
}

/// The text that `uuid` prints for an identity.
pub uninterp spec fn hyphenated(id: Uuid) -> Seq<char>;

/// Calls `Display` of `uuid::Uuid`, through `to_string`. The text depends on
/// the identity alone; the contract gives it the name `hyphenated` and claims
/// nothing else of it.
#[verifier::external_body]
fn id_text(id: &Uuid) -> (text: String)
    ensures
        text@ == hyphenated(*id),
{
    id.to_string()
}

/// The character of one decimal digit.
pub open spec fn digit(d: nat) -> char
    recommends
        d < 10,
{
    if d == 0 {
        '0'
    } else if d == 1 {
        '1'
    } else if d == 2 {
        '2'
    } else if d == 3 {
        '3'
    } else if d == 4 {
        '4'
    } else if d == 5 {
        '5'
    } else if d == 6 {
        '6'
    } else if d == 7 {
        '7'
    } else if d == 8 {
        '8'
    } else {
        '9'
    }
}

/// A number in decimal, most significant digit first, with no leading zero.
pub open spec fn decimal_digits(n: nat) -> Seq<char>
    decreases n,
{
    if n < 10 {
        seq![digit(n)]
    } else {
        decimal_digits(n / 10).push(digit(n % 10))
    }
}

fn digit_text(d: u32) -> (text: &'static str)
    requires
        d < 10,
    ensures
        text@ == seq![digit(d as nat)],
{
    proof {
        reveal_strlit("0");
        reveal_strlit("1");
        reveal_strlit("2");
        reveal_strlit("3");
        reveal_strlit("4");
        reveal_strlit("5");
        reveal_strlit("6");
        reveal_strlit("7");
        reveal_strlit("8");
        reveal_strlit("9");
    }
    let text = match d {
        0 => "0",
        1 => "1",
        2 => "2",
        3 => "3",
        4 => "4",
        5 => "5",
        6 => "6",
        7 => "7",
        8 => "8",
        _ => "9",
    };
    assert(text@ =~= seq![digit(d as nat)]);
    text
}

fn decimal(n: u32) -> (text: String)
    ensures
        text@ == decimal_digits(n as nat),
    decreases n,
{
    if n < 10 {
        String::from_str(digit_text(n))
    } else {
        let mut text = decimal(n / 10);
        text.append(digit_text(n % 10));
        assert(text@ =~= decimal_digits(n as nat));
        text
    }
}

impl DomainError {
    /// The characters of the message.
    pub open spec fn message_chars(&self) -> Seq<char> {
        match *self {
            DomainError::PatientDischargedError(id) => {
                "Unable to discharge patient with id "@ + hyphenated(id)
                    + ".  This patient is not currently admitted"@
            },
            DomainError::PatientTransferredError(id, ward) => {
                "Unable to transfer patient with id "@ + hyphenated(id) + " to ward "@
                    + decimal_digits(ward as nat) + ".  This patient is not currently admitted"@
            },
        }
    }

    /// The message for a person to read: which command was refused, for which
    /// patient, and why.
    pub fn message(&self) -> (text: String)
        ensures
            text@ == self.message_chars(),
    {
        match self {
            DomainError::PatientDischargedError(id) => {
                let mut text = String::from_str("Unable to discharge patient with id ");
                let id = id_text(id);
                text.append(id.as_str());
                text.append(".  This patient is not currently admitted");
                text
            },
            DomainError::PatientTransferredError(id, ward) => {
                let mut text = String::from_str("Unable to transfer patient with id ");
                let id = id_text(id);
                text.append(id.as_str());
                text.append(" to ward ");
                let ward = decimal(*ward);
                text.append(ward.as_str());
                text.append(".  This patient is not currently admitted");
                text
            },
        }
    }
}

} // verus!
