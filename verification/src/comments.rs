//! The comments of a program and the directives in them.
use std::collections::HashMap;

use regex::Regex;
use vstd::prelude::*;

use crate::ast::Span;

verus! {

/// `// text` or `/* text */`
#[derive(Debug, Clone, Copy, PartialEq, Eq, Structural)]
pub enum CommentKind {
    Line,
    Block,
}

#[derive(Debug, PartialEq, Eq)]
pub struct Comment {
    pub kind: CommentKind,
    pub text: String,
}

pub struct CommentView {
    pub kind: CommentKind,
    pub text: Seq<char>,
}

impl Comment {
    pub open spec fn view(&self) -> CommentView {
        CommentView { kind: self.kind, text: self.text@ }
    }
}

pub open spec fn comment_list(comments: Seq<Comment>) -> Seq<CommentView> {
    comments.map_values(|comment: Comment| comment@)
}

/// The comments that stand before syntax, by the position at which the syntax
/// begins.
#[derive(Debug)]
pub struct Comments {
    pub leading: HashMap<u32, Vec<Comment>>,
}

impl Comments {
    pub open spec fn view(&self) -> Map<u32, Seq<CommentView>> {
        self.leading@.map_values(|comments: Vec<Comment>| comment_list(comments@))
    }

    /// A program without comments.
    pub fn new() -> (r: Comments)
        ensures
            r@ == Map::<u32, Seq<CommentView>>::empty(),
    {
        let r = Comments { leading: HashMap::new() };
        assert(r@ =~= Map::<u32, Seq<CommentView>>::empty());
        r
    }

    /// Puts `comments` before what begins at `pos`, in place of any that stood
    /// there.
    pub fn set_leading(&mut self, pos: u32, comments: Vec<Comment>)
        ensures
            final(self)@ == old(self)@.insert(pos, comment_list(comments@)),
    {
        broadcast use vstd::std_specs::hash::group_hash_axioms;

        self.leading.insert(pos, comments);
        assert(self@ =~= old(self)@.insert(pos, comment_list(comments@)));
    }

    /// The comments before what begins at `pos`.
    pub fn get_leading(&self, pos: u32) -> (r: Option<&Vec<Comment>>)
        ensures
            match r {
                Some(comments) => self@.contains_key(pos) && self@[pos] == comment_list(comments@),
                None => !self@.contains_key(pos),
            },
    {
        broadcast use vstd::std_specs::hash::group_hash_axioms;

        self.leading.get(&pos)
    }
}

/// The characters of the Unicode property `White_Space`.
pub open spec fn is_space(c: char) -> bool {
    ||| '\t' <= c <= '\r'
    ||| c == ' '
    ||| c == '\u{85}'
    ||| c == '\u{a0}'
    ||| c == '\u{1680}'
    ||| '\u{2000}' <= c <= '\u{200a}'
    ||| '\u{2028}' <= c <= '\u{2029}'
    ||| c == '\u{202f}'
    ||| c == '\u{205f}'
    ||| c == '\u{3000}'
}

/// `word` stands in `text` at `i`, with white space or an end of the text on
/// either side.
pub open spec fn stands_at(text: Seq<char>, word: Seq<char>, i: int) -> bool {
    &&& 0 <= i <= text.len() - word.len()
    &&& text.subrange(i, i + word.len()) == word
    &&& i == 0 || is_space(text[i - 1])
    &&& i + word.len() == text.len() || is_space(text[i + word.len()])
}

pub open spec fn contains_word(text: Seq<char>, word: Seq<char>) -> bool {
    exists|i: int| stands_at(text, word, i)
}

pub open spec fn is_word_char(c: char) -> bool {
    c == '@' || 'a' <= c <= 'z' || 'A' <= c <= 'Z'
}

/// The word that a pattern of the form `(\s|^)word(\s|$)` looks for.
pub open spec fn word_of(pattern: Seq<char>) -> Seq<char> {
    pattern.subrange(6, pattern.len() - 6)
}

/// The pattern is `(\s|^)word(\s|$)` for a short word of letters and `@`.
pub open spec fn is_word_pattern(pattern: Seq<char>) -> bool {
    &&& 12 < pattern.len() <= 64
    &&& pattern.subrange(0, 6) == "(\\s|^)"@
    &&& pattern.subrange(pattern.len() - 6, pattern.len() as int) == "(\\s|$)"@
    &&& forall|i: int| 0 <= i < word_of(pattern).len() ==> is_word_char(#[trigger] word_of(pattern)[i])
}

/// `regex::Regex::new` and `regex::Regex::is_match`: a pattern of the form
/// `(\s|^)word(\s|$)` compiles, and matches a text if and only if the word
/// stands in it between white space or the ends of the text. In such a pattern
/// `\s` is the Unicode property `White_Space`, and `^` and `$` are the two ends of
/// the whole text.
#[verifier::external_body]
fn is_match(pattern: &str, text: &str) -> (r: bool)
    requires
        is_word_pattern(pattern@),
    ensures
        r == contains_word(text@, word_of(pattern@)),
{
    Regex::new(pattern).unwrap().is_match(text)
}

/// Whether a comment asks for tracking.
pub fn is_track_signals_directive(string: &str) -> (r: bool)
    ensures
        r == contains_word(string@, "@trackControls"@),
{
    let pattern = r"(\s|^)@trackControls(\s|$)";
    proof {
        reveal_strlit(r"(\s|^)@trackControls(\s|$)");
        reveal_strlit("(\\s|^)");
        reveal_strlit("(\\s|$)");
        reveal_strlit("@trackControls");
        assert(pattern@.subrange(0, 6) =~= "(\\s|^)"@);
        assert(pattern@.subrange(pattern@.len() - 6, pattern@.len() as int) =~= "(\\s|$)"@);
        assert(word_of(pattern@) =~= "@trackControls"@);
    }
    is_match(pattern, string)
}

/// Whether a comment forbids tracking.
pub fn is_no_track_signals_directive(string: &str) -> (r: bool)
    ensures
        r == contains_word(string@, "@noTrackControls"@),
{
    let pattern = r"(\s|^)@noTrackControls(\s|$)";
    proof {
        reveal_strlit(r"(\s|^)@noTrackControls(\s|$)");
        reveal_strlit("(\\s|^)");
        reveal_strlit("(\\s|$)");
        reveal_strlit("@noTrackControls");
        assert(pattern@.subrange(0, 6) =~= "(\\s|^)"@);
        assert(pattern@.subrange(pattern@.len() - 6, pattern@.len() as int) =~= "(\\s|$)"@);
        assert(word_of(pattern@) =~= "@noTrackControls"@);
    }
    is_match(pattern, string)
}

/// What directives say about a function.
#[derive(Debug, Clone, Copy, PartialEq, Eq, Structural)]
pub enum ShouldTrack {
    OptIn,
    OptOut,
    Auto,
}

pub open spec fn asks_for_tracking(comment: CommentView) -> bool {
    comment.kind == CommentKind::Block && contains_word(comment.text, "@trackControls"@)
}

pub open spec fn forbids_tracking(comment: CommentView) -> bool {
    comment.kind == CommentKind::Block && contains_word(comment.text, "@noTrackControls"@)
}

/// Block comments carry directives; one that forbids tracking wins over any
/// that ask for it.
pub open spec fn comments_directive(comments: Seq<CommentView>) -> ShouldTrack {
    if exists|i: int| 0 <= i < comments.len() && forbids_tracking(#[trigger] comments[i]) {
        ShouldTrack::OptOut
    } else if exists|i: int| 0 <= i < comments.len() && asks_for_tracking(#[trigger] comments[i]) {
        ShouldTrack::OptIn
    } else {
        ShouldTrack::Auto
    }
}

/// What the comments before `span` say.
pub open spec fn span_directive(
    comments: Map<u32, Seq<CommentView>>,
    span: Span,
) -> ShouldTrack {
    if comments.contains_key(span.lo) {
        comments_directive(comments[span.lo])
    } else {
        ShouldTrack::Auto
    }
}

/// What the comments before any of `spans` say.
pub open spec fn spans_directive(
    comments: Map<u32, Seq<CommentView>>,
    spans: Seq<Span>,
) -> ShouldTrack {
    if exists|i: int|
        0 <= i < spans.len() && span_directive(comments, #[trigger] spans[i])
            == ShouldTrack::OptOut {
        ShouldTrack::OptOut
    } else if exists|i: int|
        0 <= i < spans.len() && span_directive(comments, #[trigger] spans[i])
            == ShouldTrack::OptIn {
        ShouldTrack::OptIn
    } else {
        ShouldTrack::Auto
    }
}

/// What the comments before `span` say about the syntax that begins there.
pub fn should_track_by_comment(comments: &Comments, span: &Span) -> (r: ShouldTrack)
    ensures
        r == span_directive(comments@, *span),
{
    match comments.get_leading(span.lo) {
        Some(item) => {
            let ghost view = comment_list(item@);
            let mut is_track_signals = false;
            let mut is_no_track_signals = false;
            let mut i: usize = 0;
            while i < item.len()
                invariant
                    i <= item.len(),
                    view == comment_list(item@),
                    is_track_signals == exists|j: int|
                        0 <= j < i && asks_for_tracking(#[trigger] view[j]),
                    is_no_track_signals == exists|j: int|
                        0 <= j < i && forbids_tracking(#[trigger] view[j]),
                decreases item.len() - i,
            {
                let it = &item[i];
                assert(view[i as int] == it@);
                if it.kind == CommentKind::Block {
                    if is_track_signals_directive(it.text.as_str()) {
                        is_track_signals = true;
                    }
                    if is_no_track_signals_directive(it.text.as_str()) {
                        is_no_track_signals = true;
                    }
                }
                i += 1;
            }
            match (is_track_signals, is_no_track_signals) {
                (true, true) => ShouldTrack::OptOut,
                (true, false) => ShouldTrack::OptIn,
                (false, true) => ShouldTrack::OptOut,
                (false, false) => ShouldTrack::Auto,
            }
        },
        None => ShouldTrack::Auto,
    }
}

} // verus!
