//! What the file of a program says.
use vstd::prelude::*;

use crate::ast::{NodeView, ProgramView};
use crate::comments::CommentView;
use crate::laws::decisions::{
    counts_for, every_node_is_decided, function_of, is_asked_for, is_default_export, is_forbidden,
    name_of, taken_for, visits_do_what_is_decided,
};
use crate::laws::directives::{asks_at, forbids_at};
use crate::laws::jsx::{holds_jsx, Part};
use crate::laws::names::{
    begins_as_hook, begins_with_capital, first_letters_tell, only_first_letters_tell,
    said_by_letters,
};
use crate::laws::programs::{
    brings_tracking, made_ident, moved, outermost_nodes_are_found_again, policy_of,
    stands_outermost,
};
use crate::laws::wrapping::node_tracks;
use crate::laws::directories_are_irrelevant;
use crate::names::Trackable;
use crate::options::{PreactSignalsPluginOptionsView, TransformMode};
use crate::transform::{
    becomes_under_name, file_may_say, file_says, is_portable_path, last_segment, may_be_named,
    may_become, option_str, path_file_name, transformed, without_trailing,
};

verus! {

/// What a file's name says is what its letters say, from the first one on: a
/// component's if it begins with one of `A` to `Z`, a hook's if it begins with `use`
/// and one of `A` to `Z`, and nothing else, whatever the extension.
pub proof fn files_speak_by_their_letters(name: Seq<char>)
    ensures
        file_says(Some(name)) == Some(Trackable::Component) <==> name.len() > 0 && 'A' <= name[0]
            <= 'Z',
        file_says(Some(name)) == Some(Trackable::Hook) <==> name.len() > 3 && name[0] == 'u'
            && name[1] == 's' && name[2] == 'e' && 'A' <= name[3] <= 'Z',
        file_says(Some(name)) != Some(Trackable::Unknown),
        file_says(None) is None,
        said_by_letters(Some(name), file_says(Some(name))),
{
    first_letters_tell(name);
}

/// The extension of a file does not matter.
pub proof fn extensions_are_irrelevant(name: Seq<char>, first: Seq<char>, second: Seq<char>)
    requires
        begins_with_capital(name) || begins_as_hook(name),
    ensures
        file_says(Some(name + first)) == file_says(Some(name + second)),
        file_says(Some(name + first)) == file_says(Some(name)),
{
    only_first_letters_tell(name, first, second);
    first_letters_tell(name);
    first_letters_tell(name + first);
}

/// A name is handed on as it is.
pub proof fn names_are_handed_on(name: &str)
    ensures
        option_str(Some(name)) == Some(name@),
        option_str(None) is None,
{
}

/// A path without directories is the name of the file.
pub proof fn bare_paths_are_names(name: Seq<char>)
    requires
        !name.contains('/'),
        name.len() > 0,
        name != "."@,
        name != ".."@,
    ensures
        path_file_name(name) == Some(name),
        is_portable_path(name) <==> !name.contains(':') && !name.contains('\\'),
{
    assert(name.contains(name.last()));
    if name.len() > 1 {
        assert(name.contains(name[name.len() - 2]));
    }
    assert(without_trailing(name) == name);
    last_segment_of_name(name);
    if name.len() > 1 && !name.contains('\\') {
        assert(name.contains(name[0]));
        assert(name[0] != '/');
    }
}

proof fn last_segment_of_name(name: Seq<char>)
    requires
        !name.contains('/'),
    ensures
        last_segment(name) == name,
    decreases name.len(),
{
    if name.len() == 0 {
        assert(last_segment(name) =~= name);
    } else {
        assert(name.contains(name.last()));
        assert forall|c: char| name.drop_last().contains(c) implies name.contains(c) by {
            let i = choose|i: int| 0 <= i < name.drop_last().len() && name.drop_last()[i] == c;
            assert(name[i] == c);
        }
        last_segment_of_name(name.drop_last());
        assert(last_segment(name) =~= name);
    }
}

/// Separators at the end of a path, and `.` behind them, say nothing.
pub proof fn trailing_separators_are_irrelevant(path: Seq<char>)
    ensures
        path_file_name(path.push('/')) == path_file_name(path),
        path_file_name(path.push('/').push('.')) == path_file_name(path),
        path_file_name(Seq::empty()) is None,
{
    let once = path.push('/');
    let twice = once.push('.');
    assert(once.drop_last() =~= path);
    assert(twice.drop_last() =~= once);
    assert(twice[twice.len() - 2] == '/');
    assert(without_trailing(once) == without_trailing(path));
    assert(without_trailing(twice) == without_trailing(once));
}

/// A path that ends in `..` has no name.
pub proof fn parents_have_no_name(directories: Seq<char>)
    ensures
        path_file_name(directories.push('/').push('.').push('.')) is None,
        path_file_name(".."@) is None,
        path_file_name("."@) is None,
{
    reveal_strlit(".");
    reveal_strlit("..");
    let path = directories.push('/').push('.').push('.');
    assert(path[path.len() - 2] == '.');
    assert(without_trailing(path) == path);
    assert(path.drop_last() =~= directories.push('/').push('.'));
    assert(path.drop_last().drop_last() =~= directories.push('/'));
    reveal_with_fuel(last_segment, 4);
    assert(last_segment(path) =~= ".."@);
    assert("."@.drop_last() =~= Seq::<char>::empty());
    assert(without_trailing("."@) == "."@);
    assert(last_segment("."@) =~= "."@);
    assert(".."@.drop_last() =~= "."@);
    assert(without_trailing(".."@) == ".."@);
    assert(last_segment(".."@) =~= ".."@);
}

/// A program in no file has no name to go by; one in a file whose path ends in `/` and
/// a name, on every platform, goes by the letters of that name.
pub proof fn paths_speak_by_the_letters_of_the_name(
    path: &str,
    directories: Seq<char>,
    name: Seq<char>,
    said: Option<Trackable>,
)
    requires
        path@ == directories.push('/') + name,
        is_portable_path(path@),
        !name.contains('/'),
        name.len() > 0,
        name != "."@,
        name != ".."@,
    ensures
        file_may_say(Some(path), said) ==> said_by_letters(Some(name), said),
        file_may_say(None, said) ==> said is None,
{
    directories_are_irrelevant(directories, name);
    first_letters_tell(name);
}

/// A default export without a name, outside every other node, that no comment decides
/// on and in which JSX stands is tracked, in the modes `All` and `Auto`, in every file
/// whose name begins with a capital letter, whatever directories and extension it has.
pub proof fn unnamed_defaults_go_by_their_file(
    program: ProgramView,
    options: PreactSignalsPluginOptionsView,
    path: &str,
    directories: Seq<char>,
    name: Seq<char>,
    comments: Map<u32, Seq<CommentView>>,
    ctxt: u32,
    out: ProgramView,
    i: int,
    j: int,
    n: NodeView,
    part: Part,
) -> (r: (int, NodeView))
    requires
        path@ == directories.push('/') + name,
        is_portable_path(path@),
        !name.contains('/'),
        name.len() > 0,
        'A' <= name[0] <= 'Z',
        may_become(program, options, Some(path), comments, ctxt, out),
        stands_outermost(program, i, j, n),
        is_default_export(n),
        name_of(n) is None,
        function_of(n) == Some(part),
        holds_jsx(part),
        options.mode != TransformMode::Manual,
        forall|pos: u32| counts_for(n, pos) ==> !#[trigger] forbids_at(comments, pos),
        forall|pos: u32| counts_for(n, pos) ==> !#[trigger] asks_at(comments, pos),
    ensures
        ({
            let (k, new) = r;
            &&& brings_tracking(out, k, options.import_source, ctxt)
            &&& stands_outermost(out, moved(i, k), j, new)
            &&& node_tracks(
                new,
                n,
                made_ident("_useComponentTracking"@, ctxt),
                if options.add_hook_usage_flag {
                    Some(Trackable::Component)
                } else {
                    None
                },
            )
        }),
{
    reveal_strlit(".");
    reveal_strlit("..");
    assert(name != "."@ && name != ".."@);
    directories_are_irrelevant(directories, name);
    let found = choose|found: Option<Seq<char>>| #[trigger]
        becomes_under_name(program, options, Some(path), found, comments, ctxt, out);
    assert(may_be_named(Some(path), found));
    assert(found == Some(name));
    let file = file_says(Some(name));
    files_speak_by_their_letters(name);
    assert(out == transformed(program, options, comments, file, ctxt));
    let policy = policy_of(options, comments, file);
    let ident = made_ident("_useComponentTracking"@, ctxt);
    assert(!is_forbidden(comments, n));
    assert(!is_asked_for(comments, n));
    assert(taken_for(n, file) == Some(Trackable::Component));
    every_node_is_decided(policy, n);
    visits_do_what_is_decided(policy, ident, n);
    let k = outermost_nodes_are_found_again(
        program,
        options,
        comments,
        file,
        ctxt,
        i,
        j,
        n,
    );
    (k, policy.visited_node(ident, n))
}

} // verus!
