//! What a name says about the function that bears it.
use vstd::prelude::*;

use crate::ast::{
    AssignTarget, AssignTargetView, Ident, MemberProp, MemberPropView, Pat, PatView, PropName,
    PropNameView, Str,
};

verus! {

/// What a tracked function is taken for.
#[derive(Debug, Clone, Copy, PartialEq, Eq, Structural)]
pub enum Trackable {
    Component,
    Hook,
    /// Tracked on request alone: the name tells nothing
    Unknown,
}

pub open spec fn is_upper(c: char) -> bool {
    'A' <= c <= 'Z'
}

/// A component's name begins with a capital letter; a hook's name begins with
/// `use` and a capital letter.
pub open spec fn name_trackable(name: Seq<char>) -> Option<Trackable> {
    if name.len() > 0 && is_upper(name[0]) {
        Some(Trackable::Component)
    } else if name.len() > 3 && name.take(3) == "use"@ && is_upper(name[3]) {
        Some(Trackable::Hook)
    } else {
        None
    }
}

pub open spec fn pat_trackable(pat: PatView) -> Option<Trackable> {
    match pat {
        PatView::Ident(ident) => name_trackable(ident.sym),
        PatView::Other => None,
    }
}

/// An assignment to a member names the function by the last property.
pub open spec fn target_trackable(target: AssignTargetView) -> Option<Trackable> {
    match target {
        AssignTargetView::Ident(ident) => name_trackable(ident.sym),
        AssignTargetView::Member(MemberPropView::Ident(ident)) => name_trackable(ident.sym),
        AssignTargetView::Member(MemberPropView::Str(lit)) => name_trackable(lit.value),
        AssignTargetView::Member(MemberPropView::Other) => None,
        AssignTargetView::Other => None,
    }
}

pub open spec fn key_trackable(key: PropNameView) -> Option<Trackable> {
    match key {
        PropNameView::Ident(ident) => name_trackable(ident.sym),
        PropNameView::Str(lit) => name_trackable(lit.value),
        PropNameView::Computed(_, Some(lit)) => name_trackable(lit.value),
        PropNameView::Computed(_, None) => None,
        PropNameView::Num(_) => None,
    }
}

/// Syntax that may name a component or a hook.
pub trait MaybeComponentName {
    spec fn spec_is_trackable(&self) -> Option<Trackable>;

    /// What the name says the function is, if it says anything.
    fn is_trackable(&self) -> (r: Option<Trackable>)
        ensures
            r == self.spec_is_trackable(),
    ;
}

fn is_upper_char(c: char) -> (r: bool)
    ensures
        r == is_upper(c),
{
    'A' <= c && c <= 'Z'
}

impl MaybeComponentName for str {
    open spec fn spec_is_trackable(&self) -> Option<Trackable> {
        name_trackable(self@)
    }

    fn is_trackable(&self) -> (r: Option<Trackable>) {
        proof {
            reveal_strlit("use");
        }
        let len: usize = self.unicode_len();
        if len > 0 && is_upper_char(self.get_char(0)) {
            Some(Trackable::Component)
        } else if len > 3 && self.get_char(0) == 'u' && self.get_char(1) == 's' && self.get_char(2)
            == 'e' && is_upper_char(self.get_char(3)) {
            assert(self@.take(3) =~= "use"@);
            Some(Trackable::Hook)
        } else {
            assert(self@.len() > 3 && self@.take(3) == "use"@ ==> self@[0] == "use"@[0] && self@[1]
                == "use"@[1] && self@[2] == "use"@[2]);
            None
        }
    }
}

impl MaybeComponentName for Ident {
    open spec fn spec_is_trackable(&self) -> Option<Trackable> {
        name_trackable(self@.sym)
    }

    fn is_trackable(&self) -> (r: Option<Trackable>) {
        self.sym.as_str().is_trackable()
    }
}

impl MaybeComponentName for Str {
    open spec fn spec_is_trackable(&self) -> Option<Trackable> {
        name_trackable(self@.value)
    }

    fn is_trackable(&self) -> (r: Option<Trackable>) {
        self.value.as_str().is_trackable()
    }
}

impl MaybeComponentName for Pat {
    open spec fn spec_is_trackable(&self) -> Option<Trackable> {
        pat_trackable(self@)
    }

    fn is_trackable(&self) -> (r: Option<Trackable>) {
        match self {
            Pat::Ident(ident) => ident.is_trackable(),
            Pat::Other => None,
        }
    }
}

impl MaybeComponentName for AssignTarget {
    open spec fn spec_is_trackable(&self) -> Option<Trackable> {
        target_trackable(self@)
    }

    fn is_trackable(&self) -> (r: Option<Trackable>) {
        match self {
            AssignTarget::Ident(ident) => ident.is_trackable(),
            AssignTarget::Member(MemberProp::Ident(ident)) => ident.is_trackable(),
            AssignTarget::Member(MemberProp::Str(lit)) => lit.is_trackable(),
            AssignTarget::Member(MemberProp::Other) => None,
            AssignTarget::Other => None,
        }
    }
}

impl MaybeComponentName for PropName {
    open spec fn spec_is_trackable(&self) -> Option<Trackable> {
        key_trackable(self@)
    }

    fn is_trackable(&self) -> (r: Option<Trackable>) {
        match self {
            PropName::Ident(ident) => ident.is_trackable(),
            PropName::Str(lit) => lit.is_trackable(),
            PropName::Computed(_, Some(lit)) => lit.is_trackable(),
            PropName::Computed(_, None) => None,
            PropName::Num(_) => None,
        }
    }
}

} // verus!
