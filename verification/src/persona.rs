//! Robot personality tag. The tag parameterises the affective engine; the
//! numeric index and the lowercase name appear on the control surface.

use vstd::prelude::*;

verus! {

/// Robot personality traits that modify the emotional weight vectors.
#[derive(Debug, Clone, Copy, PartialEq, Eq, Hash, Structural)]
pub enum PersonaTrait {
    /// Calm, compliant.
    Obedient,
    /// Playful, chaotic.
    Mischievous,
    /// Affectionate, socially warm.
    Cute,
    /// Defiant, headstrong.
    Stubborn,
}

/// The numeric index a persona maps to.
pub open spec fn spec_persona_index(p: PersonaTrait) -> u8 {
    match p {
        PersonaTrait::Obedient => 0,
        PersonaTrait::Mischievous => 1,
        PersonaTrait::Cute => 2,
        PersonaTrait::Stubborn => 3,
    }
}

impl PersonaTrait {
    /// All variants, in definition order.
    pub fn all() -> (r: [PersonaTrait; 4])
        ensures
            r@ == seq![
                PersonaTrait::Obedient,
                PersonaTrait::Mischievous,
                PersonaTrait::Cute,
                PersonaTrait::Stubborn,
            ],
    {
        let r = [
            PersonaTrait::Obedient,
            PersonaTrait::Mischievous,
            PersonaTrait::Cute,
            PersonaTrait::Stubborn,
        ];
        proof {
            assert(r@ =~= seq![
                PersonaTrait::Obedient,
                PersonaTrait::Mischievous,
                PersonaTrait::Cute,
                PersonaTrait::Stubborn,
            ]);
        }
        r
    }

    /// Numeric index (0-based).
    pub fn index(self) -> (r: u8)
        ensures
            r == spec_persona_index(self),
    {
        match self {
            PersonaTrait::Obedient => 0,
            PersonaTrait::Mischievous => 1,
            PersonaTrait::Cute => 2,
            PersonaTrait::Stubborn => 3,
        }
    }

    /// Construct from a numeric index; total on 0..=3, `None` beyond.
    pub fn from_index(i: u8) -> (r: Option<PersonaTrait>)
        ensures
            r == (if i <= 3 {
                Some(
                    if i == 0 {
                        PersonaTrait::Obedient
                    } else if i == 1 {
                        PersonaTrait::Mischievous
                    } else if i == 2 {
                        PersonaTrait::Cute
                    } else {
                        PersonaTrait::Stubborn
                    },
                )
            } else {
                None::<PersonaTrait>
            }),
            r matches Some(p) ==> spec_persona_index(p) == i,
    {
        match i {
            0 => Some(PersonaTrait::Obedient),
            1 => Some(PersonaTrait::Mischievous),
            2 => Some(PersonaTrait::Cute),
            3 => Some(PersonaTrait::Stubborn),
            _ => None,
        }
    }

    /// The lowercase name used on the control surface.
    pub fn name(self) -> (r: &'static str)
        ensures
            self is Obedient ==> r@ == "obedient"@,
            self is Mischievous ==> r@ == "mischievous"@,
            self is Cute ==> r@ == "cute"@,
            self is Stubborn ==> r@ == "stubborn"@,
    {
        match self {
            PersonaTrait::Obedient => "obedient",
            PersonaTrait::Mischievous => "mischievous",
            PersonaTrait::Cute => "cute",
            PersonaTrait::Stubborn => "stubborn",
        }
    }
}

/// Why a persona-change request was refused.
#[derive(Debug, Clone, Copy, PartialEq, Eq, Structural)]
pub enum PersonaRequestError {
    /// An index was given but lies outside 0..=3.
    InvalidIndex(u8),
    /// Neither a persona name nor an index was given.
    MissingField,
}

/// Decide a persona-change request, as the control surface does: a named
/// persona wins over an index; a bare index must lie in 0..=3; a request
/// naming neither field is refused.
pub fn choose_persona(persona: Option<PersonaTrait>, index: Option<u8>) -> (r: Result<
    PersonaTrait,
    PersonaRequestError,
>)
    ensures
        r == (match (persona, index) {
            (Some(p), _) => Ok::<PersonaTrait, PersonaRequestError>(p),
            (None, Some(i)) => {
                if i <= 3 {
                    Ok(
                        if i == 0 {
                            PersonaTrait::Obedient
                        } else if i == 1 {
                            PersonaTrait::Mischievous
                        } else if i == 2 {
                            PersonaTrait::Cute
                        } else {
                            PersonaTrait::Stubborn
                        },
                    )
                } else {
                    Err(PersonaRequestError::InvalidIndex(i))
                }
            },
            (None, None) => Err(PersonaRequestError::MissingField),
        }),
{
    match (persona, index) {
        (Some(p), _) => Ok(p),
        (None, Some(i)) => match PersonaTrait::from_index(i) {
            Some(p) => Ok(p),
            None => Err(PersonaRequestError::InvalidIndex(i)),
        },
        (None, None) => Err(PersonaRequestError::MissingField),
    }
}

} // verus!
