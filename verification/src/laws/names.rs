//! What a name says, letter by letter.
use vstd::prelude::*;

use crate::ast::{
    AssignTarget, AssignTargetView, Ident, IdentView, MemberPropView, Pat, PatView, PropName,
    PropNameView, Span, Str, StrView,
};
use crate::names::{
    key_trackable, name_trackable, pat_trackable, target_trackable, MaybeComponentName, Trackable,
};

verus! {

/// The first letter is one of `A` to `Z`.
pub open spec fn begins_with_capital(name: Seq<char>) -> bool {
    name.len() > 0 && 'A' <= name[0] && name[0] <= 'Z'
}

/// `use`, and then one of `A` to `Z`.
pub open spec fn begins_as_hook(name: Seq<char>) -> bool {
    &&& name.len() > 3
    &&& name[0] == 'u'
    &&& name[1] == 's'
    &&& name[2] == 'e'
    &&& 'A' <= name[3]
    &&& name[3] <= 'Z'
}

/// `said` is what the letters of a name say, or nothing where there is no name.
pub open spec fn said_by_letters(name: Option<Seq<char>>, said: Option<Trackable>) -> bool {
    match name {
        Some(name) => {
            &&& said == Some(Trackable::Component) <==> begins_with_capital(name)
            &&& said == Some(Trackable::Hook) <==> begins_as_hook(name)
            &&& said is None <==> !begins_with_capital(name) && !begins_as_hook(name)
        },
        None => said is None,
    }
}

/// The letters of a name leave no choice.
pub proof fn letters_say_one_thing(
    name: Option<Seq<char>>,
    first: Option<Trackable>,
    second: Option<Trackable>,
)
    requires
        said_by_letters(name, first),
        said_by_letters(name, second),
    ensures
        first == second,
{
}

/// Every name that begins with one of `A` to `Z` is that of a component, whatever
/// follows; every name that begins with `use` and one of `A` to `Z` is that of a
/// hook; every other name says nothing.
pub proof fn first_letters_tell(name: Seq<char>)
    ensures
        name.len() > 0 && 'A' <= name[0] <= 'Z' ==> name_trackable(name) == Some(
            Trackable::Component,
        ),
        name.len() > 3 && name[0] == 'u' && name[1] == 's' && name[2] == 'e' && 'A' <= name[3]
            <= 'Z' ==> name_trackable(name) == Some(Trackable::Hook),
        !(name.len() > 0 && 'A' <= name[0] <= 'Z') && !(name.len() > 3 && name[0] == 'u' && name[1]
            == 's' && name[2] == 'e' && 'A' <= name[3] <= 'Z') ==> name_trackable(name) is None,
        said_by_letters(Some(name), name_trackable(name)),
{
    reveal_strlit("use");
    if name.len() > 3 {
        if name[0] == 'u' && name[1] == 's' && name[2] == 'e' {
            assert(name.take(3) =~= "use"@);
        } else {
            assert(name.take(3)[0] == name[0]);
            assert(name.take(3)[1] == name[1]);
            assert(name.take(3)[2] == name[2]);
        }
    }
}

/// What follows the first letters of a name says nothing.
pub proof fn only_first_letters_tell(name: Seq<char>, first: Seq<char>, second: Seq<char>)
    requires
        name.len() > 3 || begins_with_capital(name),
    ensures
        name_trackable(name + first) == name_trackable(name + second),
{
    first_letters_tell(name + first);
    first_letters_tell(name + second);
}

/// A pattern is named by the identifier that it is.
pub open spec fn pat_name(pat: PatView) -> Option<Seq<char>> {
    match pat {
        PatView::Ident(ident) => Some(ident.sym),
        PatView::Other => None,
    }
}

/// The target of an assignment is named by the identifier that it is, or by the last
/// property of the member that it is.
pub open spec fn target_name(target: AssignTargetView) -> Option<Seq<char>> {
    match target {
        AssignTargetView::Ident(ident) => Some(ident.sym),
        AssignTargetView::Member(MemberPropView::Ident(ident)) => Some(ident.sym),
        AssignTargetView::Member(MemberPropView::Str(lit)) => Some(lit.value),
        AssignTargetView::Member(MemberPropView::Other) => None,
        AssignTargetView::Other => None,
    }
}

/// A key is named by the identifier or the literal that it is, in brackets or not.
pub open spec fn key_name(key: PropNameView) -> Option<Seq<char>> {
    match key {
        PropNameView::Ident(ident) => Some(ident.sym),
        PropNameView::Str(lit) => Some(lit.value),
        PropNameView::Computed(_, Some(lit)) => Some(lit.value),
        PropNameView::Computed(_, None) => None,
        PropNameView::Num(_) => None,
    }
}

/// What a pattern, a target or a key says is what the letters of its name say.
pub proof fn syntax_is_named_by_letters(pat: PatView, target: AssignTargetView, key: PropNameView)
    ensures
        said_by_letters(pat_name(pat), pat_trackable(pat)),
        said_by_letters(target_name(target), target_trackable(target)),
        said_by_letters(key_name(key), key_trackable(key)),
{
    if let Some(name) = pat_name(pat) {
        first_letters_tell(name);
    }
    if let Some(name) = target_name(target) {
        first_letters_tell(name);
    }
    if let Some(name) = key_name(key) {
        first_letters_tell(name);
    }
}

/// Whatever kind of syntax bears a name, `is_trackable` reads the letters of it.
pub proof fn every_bearer_is_read_by_letters(
    text: &str,
    ident: Ident,
    lit: Str,
    pat: Pat,
    target: AssignTarget,
    key: PropName,
)
    ensures
        said_by_letters(Some(text@), text.spec_is_trackable()),
        said_by_letters(Some(ident.sym@), ident.spec_is_trackable()),
        said_by_letters(Some(lit.value@), lit.spec_is_trackable()),
        said_by_letters(pat_name(pat@), pat.spec_is_trackable()),
        said_by_letters(target_name(target@), target.spec_is_trackable()),
        said_by_letters(key_name(key@), key.spec_is_trackable()),
{
    first_letters_tell(text@);
    first_letters_tell(ident.sym@);
    first_letters_tell(lit.value@);
    syntax_is_named_by_letters(pat@, target@, key@);
}

/// How a name is written does not matter: a literal, an identifier, a key in brackets
/// and a member of an object that spell the same name say the same.
pub proof fn spelling_is_irrelevant(ident: IdentView, lit: StrView, span: Span)
    requires
        ident.sym == lit.value,
    ensures
        key_trackable(PropNameView::Ident(ident)) == key_trackable(PropNameView::Str(lit)),
        key_trackable(PropNameView::Computed(span, Some(lit))) == key_trackable(
            PropNameView::Str(lit),
        ),
        target_trackable(AssignTargetView::Ident(ident)) == target_trackable(
            AssignTargetView::Member(MemberPropView::Str(lit)),
        ),
        target_trackable(AssignTargetView::Ident(ident)) == target_trackable(
            AssignTargetView::Member(MemberPropView::Ident(ident)),
        ),
        pat_trackable(PatView::Ident(ident)) == target_trackable(AssignTargetView::Ident(ident)),
        key_trackable(PropNameView::Ident(ident)) == pat_trackable(PatView::Ident(ident)),
{
}

} // verus!
