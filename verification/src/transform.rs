//! The transform of a whole program.
use std::path::Path;

use vstd::prelude::*;

use crate::ast::{Program, ProgramView};
use crate::comments::{CommentView, Comments};
use crate::names::{name_trackable, MaybeComponentName, Trackable};
use crate::options::{default_options, PreactSignalsPluginOptions, PreactSignalsPluginOptionsView};
use crate::visitor::{visitor_from, SignalsTransformVisitor};

verus! {

/// What follows the last `/` of a path.
pub open spec fn last_segment(path: Seq<char>) -> Seq<char>
    decreases path.len(),
{
    if path.len() == 0 || path.last() == '/' {
        seq![]
    } else {
        last_segment(path.drop_last()).push(path.last())
    }
}

/// The path without the separators, and the `.` behind separators, that it ends
/// in.
pub open spec fn without_trailing(path: Seq<char>) -> Seq<char>
    decreases path.len(),
{
    if path.len() > 0 && path.last() == '/' {
        without_trailing(path.drop_last())
    } else if path.len() > 1 && path.last() == '.' && path[path.len() - 2] == '/' {
        without_trailing(path.drop_last())
    } else {
        path
    }
}

pub open spec fn is_separator(c: char) -> bool {
    c == '/' || c == '\\'
}

/// The path ends alike on Unix and on Windows: it does not begin with two
/// separators, as the long prefixes of Windows do, and what follows the `/` before
/// its final component holds neither `\` nor the `:` of a drive.
pub open spec fn is_portable_path(path: Seq<char>) -> bool {
    let name = last_segment(without_trailing(path));
    &&& !(path.len() > 1 && is_separator(path[0]) && is_separator(path[1]))
    &&& !name.contains('\\')
    &&& !name.contains(':')
}

/// The final component of a path that is split at `/`. The root, `.` and `..` are
/// no names.
pub open spec fn path_file_name(path: Seq<char>) -> Option<Seq<char>> {
    let name = last_segment(without_trailing(path));
    if name == Seq::<char>::empty() || name == "."@ || name == ".."@ {
        None
    } else {
        Some(name)
    }
}

/// `std::path::Path::file_name`: the final component of the path, if that is a
/// name. Of a path that ends alike on Unix and on Windows, that is what follows
/// the last `/`, with each `/` and `.` at its end left out. Of other paths nothing
/// is said: their components depend on the platform.
#[verifier::external_body]
fn file_name(path: &str) -> (r: Option<String>)
    ensures
        match r {
            Some(name) => is_portable_path(path@) ==> path_file_name(path@) == Some(name@),
            None => is_portable_path(path@) ==> path_file_name(path@) is None,
        },
{
    Path::new(path).file_name().and_then(|name| name.to_str()).map(|name| name.to_owned())
}

/// `name` can be the final component of the path of a file, or `None` where there
/// is none. It is known of a path that ends alike on Unix and on Windows.
pub open spec fn may_be_named(filename: Option<&str>, name: Option<Seq<char>>) -> bool {
    match filename {
        Some(path) => is_portable_path(path@) ==> name == path_file_name(path@),
        None => name is None,
    }
}

/// What the name of a file says of a default export without a name.
pub open spec fn file_says(name: Option<Seq<char>>) -> Option<Trackable> {
    match name {
        Some(name) => name_trackable(name),
        None => None,
    }
}

/// The path of a file can say `trackable` of a default export without a name: it
/// is what the final component says.
pub open spec fn file_may_say(filename: Option<&str>, trackable: Option<Trackable>) -> bool {
    exists|name: Option<Seq<char>>|
        #[trigger] may_be_named(filename, name) && trackable == file_says(name)
}

pub open spec fn option_str(name: Option<&str>) -> Option<Seq<char>> {
    match name {
        Some(name) => Some(name@),
        None => None,
    }
}

/// What the name of a file says of a default export without a name.
pub fn file_name_trackable(name: Option<&str>) -> (r: Option<Trackable>)
    ensures
        r == file_says(option_str(name)),
{
    match name {
        Some(name) => name.is_trackable(),
        None => None,
    }
}

/// What the path of a file says of a default export without a name.
pub fn file_trackable_name(filename: Option<&str>) -> (r: Option<Trackable>)
    ensures
        file_may_say(filename, r),
{
    match filename {
        Some(path) => match file_name(path) {
            Some(name) => {
                assert(may_be_named(filename, Some(name@)));
                file_name_trackable(Some(name.as_str()))
            },
            None => {
                assert(may_be_named(filename, None));
                file_name_trackable(None)
            },
        },
        None => {
            assert(may_be_named(filename, None));
            file_name_trackable(None)
        },
    }
}

pub open spec fn options_or_default(
    options: Option<PreactSignalsPluginOptions>,
) -> PreactSignalsPluginOptionsView {
    match options {
        Some(options) => options@,
        None => default_options(),
    }
}

/// The program with its components tracked.
pub open spec fn transformed(
    program: ProgramView,
    options: PreactSignalsPluginOptionsView,
    comments: Map<u32, Seq<CommentView>>,
    file_trackable_name: Option<Trackable>,
    private_ctxt: u32,
) -> ProgramView {
    visitor_from(options, comments, file_trackable_name, private_ctxt).visited_program(
        program,
        private_ctxt,
    )
}

/// The program in the file `filename` becomes `r` where `name` is the final
/// component of that path.
pub open spec fn becomes_under_name(
    program: ProgramView,
    options: PreactSignalsPluginOptionsView,
    filename: Option<&str>,
    name: Option<Seq<char>>,
    comments: Map<u32, Seq<CommentView>>,
    private_ctxt: u32,
    r: ProgramView,
) -> bool {
    &&& may_be_named(filename, name)
    &&& r == transformed(program, options, comments, file_says(name), private_ctxt)
}

/// The program in the file `filename` can become `r`: its components are tracked
/// by what the final component of that path says.
pub open spec fn may_become(
    program: ProgramView,
    options: PreactSignalsPluginOptionsView,
    filename: Option<&str>,
    comments: Map<u32, Seq<CommentView>>,
    private_ctxt: u32,
    r: ProgramView,
) -> bool {
    exists|name: Option<Seq<char>>| #[trigger]
        becomes_under_name(program, options, filename, name, comments, private_ctxt, r)
}

/// Tracks the components of a program, where `file_trackable_name` is what the
/// name of its file says.
pub fn transform_program(
    program: Program,
    options: Option<PreactSignalsPluginOptions>,
    comments: Comments,
    file_trackable_name: Option<Trackable>,
    private_ctxt: u32,
) -> (r: Program)
    ensures
        r@ == transformed(
            program@,
            options_or_default(options),
            comments@,
            file_trackable_name,
            private_ctxt,
        ),
{
    let mut program = program;
    let mut visitor = match options {
        Some(options) => SignalsTransformVisitor::from_options(
            options,
            comments,
            file_trackable_name,
            private_ctxt,
        ),
        None => SignalsTransformVisitor::from_default(comments, file_trackable_name, private_ctxt),
    };
    visitor.visit_mut_program(&mut program, private_ctxt);
    program
}

/// Tracks the components of the program in the file `filename`. The identifiers
/// that this writes are made in the context `private_ctxt`, in which the program
/// must have none.
pub fn process_transform(
    program: Program,
    options: Option<PreactSignalsPluginOptions>,
    filename: Option<&str>,
    comments: Comments,
    private_ctxt: u32,
) -> (r: Program)
    ensures
        may_become(
            program@,
            options_or_default(options),
            filename,
            comments@,
            private_ctxt,
            r@,
        ),
{
    let file_trackable_name = file_trackable_name(filename);
    let r = transform_program(program, options, comments, file_trackable_name, private_ctxt);
    proof {
        let name = choose|name: Option<Seq<char>>| #[trigger]
            may_be_named(filename, name) && file_trackable_name == file_says(name);
        assert(becomes_under_name(
            program@,
            options_or_default(options),
            filename,
            name,
            comments@,
            private_ctxt,
            r@,
        ));
    }
    r
}

} // verus!
