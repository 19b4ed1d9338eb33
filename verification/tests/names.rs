use signals_transform::ast::{AssignTarget, Ident, MemberProp, Pat, PropName, Span, Str};
use signals_transform::names::{MaybeComponentName, Trackable};

const SPAN: Span = Span { lo: 1, hi: 2 };

fn ident(name: &str) -> Ident {
    Ident {
        span: SPAN,
        ctxt: 0,
        sym: name.to_string(),
        optional: false,
    }
}

#[test]
fn capital_letter_makes_a_component() {
    assert_eq!("A".is_trackable(), Some(Trackable::Component));
    assert_eq!("Z9".is_trackable(), Some(Trackable::Component));
    assert_eq!("Button.tsx".is_trackable(), Some(Trackable::Component));
    assert_eq!("UseA".is_trackable(), Some(Trackable::Component));
}

#[test]
fn use_and_capital_letter_make_a_hook() {
    assert_eq!("useA".is_trackable(), Some(Trackable::Hook));
    assert_eq!("useZebra".is_trackable(), Some(Trackable::Hook));
}

#[test]
fn other_names_say_nothing() {
    for name in [
        "", "a", "use", "usea", "use1", "us", "uSeA", "useé", "éA", "_A", "$A", "1A", "@A", "[A",
    ] {
        assert_eq!(name.is_trackable(), None, "{}", name);
    }
}

#[test]
fn patterns_are_named_by_identifiers() {
    assert_eq!(
        Pat::Ident(ident("A")).is_trackable(),
        Some(Trackable::Component)
    );
    assert_eq!(Pat::Ident(ident("a")).is_trackable(), None);
    assert_eq!(Pat::Other.is_trackable(), None);
}

#[test]
fn targets_are_named_by_the_last_property() {
    assert_eq!(
        AssignTarget::Ident(ident("useA")).is_trackable(),
        Some(Trackable::Hook)
    );
    assert_eq!(
        AssignTarget::Member(MemberProp::Ident(ident("Baba"))).is_trackable(),
        Some(Trackable::Component)
    );
    assert_eq!(
        AssignTarget::Member(MemberProp::Str(Str::from_str("Baba"))).is_trackable(),
        Some(Trackable::Component)
    );
    assert_eq!(AssignTarget::Member(MemberProp::Other).is_trackable(), None);
    assert_eq!(AssignTarget::Other.is_trackable(), None);
}

#[test]
fn keys_are_named_by_identifiers_and_literals() {
    assert_eq!(
        PropName::Ident(ident("A")).is_trackable(),
        Some(Trackable::Component)
    );
    assert_eq!(
        PropName::Str(Str::from_str("useA")).is_trackable(),
        Some(Trackable::Hook)
    );
    assert_eq!(
        PropName::Computed(SPAN, Some(Str::from_str("Aboba"))).is_trackable(),
        Some(Trackable::Component)
    );
    assert_eq!(PropName::Computed(SPAN, None).is_trackable(), None);
    assert_eq!(PropName::Num(SPAN).is_trackable(), None);
}
