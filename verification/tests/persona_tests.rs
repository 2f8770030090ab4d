use esp_audio_bridge::persona::{choose_persona, PersonaRequestError, PersonaTrait};

#[test]
fn test_index_roundtrip() {
    for p in PersonaTrait::all() {
        assert_eq!(PersonaTrait::from_index(p.index()), Some(p));
    }
    assert_eq!(PersonaTrait::from_index(99), None);
}

#[test]
fn test_persona_names() {
    assert_eq!(PersonaTrait::Obedient.name(), "obedient");
    assert_eq!(PersonaTrait::Mischievous.name(), "mischievous");
    assert_eq!(PersonaTrait::Cute.name(), "cute");
    assert_eq!(PersonaTrait::Stubborn.name(), "stubborn");
}

#[test]
fn test_persona_indices() {
    assert_eq!(PersonaTrait::Obedient.index(), 0);
    assert_eq!(PersonaTrait::Mischievous.index(), 1);
    assert_eq!(PersonaTrait::Cute.index(), 2);
    assert_eq!(PersonaTrait::Stubborn.index(), 3);
}

#[test]
fn test_choose_persona_by_name_wins() {
    // A named persona wins even when an index is also given.
    let r = choose_persona(Some(PersonaTrait::Stubborn), Some(1));
    assert_eq!(r, Ok(PersonaTrait::Stubborn));
}

#[test]
fn test_choose_persona_by_index() {
    assert_eq!(choose_persona(None, Some(0)), Ok(PersonaTrait::Obedient));
    assert_eq!(choose_persona(None, Some(3)), Ok(PersonaTrait::Stubborn));
}

#[test]
fn test_choose_persona_invalid_index() {
    assert_eq!(
        choose_persona(None, Some(4)),
        Err(PersonaRequestError::InvalidIndex(4))
    );
}

#[test]
fn test_choose_persona_missing_field() {
    assert_eq!(
        choose_persona(None, None),
        Err(PersonaRequestError::MissingField)
    );
}

#[test]
fn test_persona_change_round_trip() {
    // The control surface's reply to a change request: the new persona's
    // name and index, as its handler reads them back.
    let chosen = choose_persona(Some(PersonaTrait::Stubborn), None).unwrap();
    assert_eq!(chosen.name(), "stubborn");
    assert_eq!(chosen.index(), 3);
}
